//! What holds of every record that the projection builds.

use vstd::prelude::*;
use crate::account::{texts_of_keys, Pubkey};
use crate::entity::ValueView;
use crate::handler::{is_record_id, projects};
use crate::instruction::{MarketInstructionView, OrderType, SelfTradeBehavior, Side};
use crate::record::{
    account_attributes, apply, attributes, entity_type_of, payload_attributes, record, role_table,
    slot_text,
};
use crate::sink::SaveCall;

verus! {

/// The character of `s` at index `at`, and a blank where `s` is too short.
pub open spec fn mark(s: Seq<char>, at: int) -> char {
    if 0 <= at < s.len() {
        s[at]
    } else {
        ' '
    }
}

/// The length of a name with its characters at the indices 0, 1 and 5: enough
/// to tell the attribute names apart.
pub open spec fn fingerprint(s: Seq<char>) -> (nat, char, char, char) {
    (s.len(), mark(s, 0), mark(s, 1), mark(s, 5))
}

/// The fingerprints of the attribute names.
proof fn lemma_fingerprints()
    ensures
        fingerprint("SRM_account"@) == (11nat, 'S', 'R', 'c'),
        fingerprint("account_paying"@) == (14nat, 'a', 'c', 'n'),
        fingerprint("account_paying_for_the_order"@) == (28nat, 'a', 'c', 'n'),
        fingerprint("asks"@) == (4nat, 'a', 's', ' '),
        fingerprint("bids"@) == (4nat, 'b', 'i', ' '),
        fingerprint("client_id"@) == (9nat, 'c', 'l', 't'),
        fingerprint("client_order_id"@) == (15nat, 'c', 'l', 't'),
        fingerprint("coin_currency"@) == (13nat, 'c', 'o', 'c'),
        fingerprint("coin_currency_mint"@) == (18nat, 'c', 'o', 'c'),
        fingerprint("coin_fee"@) == (8nat, 'c', 'o', 'f'),
        fingerprint("coin_lot_size"@) == (13nat, 'c', 'o', 'l'),
        fingerprint("coin_vault"@) == (10nat, 'c', 'o', 'v'),
        fingerprint("coin_wallet"@) == (11nat, 'c', 'o', 'w'),
        fingerprint("crank_authority"@) == (15nat, 'c', 'r', '_'),
        fingerprint("destination_to_send_rent_exemption_sol"@) == (38nat, 'd', 'e', 'n'),
        fingerprint("disable_authority"@) == (17nat, 'd', 'i', 'l'),
        fingerprint("event_queue"@) == (11nat, 'e', 'v', '_'),
        fingerprint("fee_rate_bps"@) == (12nat, 'f', 'e', 'a'),
        fingerprint("fee_receivable_account"@) == (22nat, 'f', 'e', 'e'),
        fingerprint("fee_sweeping_authority"@) == (22nat, 'f', 'e', 'w'),
        fingerprint("id"@) == (2nat, 'i', 'd', ' '),
        fingerprint("limit"@) == (5nat, 'l', 'i', ' '),
        fingerprint("limit_price"@) == (11nat, 'l', 'i', '_'),
        fingerprint("market"@) == (6nat, 'm', 'a', 't'),
        fingerprint("max_coin_qty"@) == (12nat, 'm', 'a', 'o'),
        fingerprint("max_native_pc_qty_including_fees"@) == (32nat, 'm', 'a', 'a'),
        fingerprint("max_qty"@) == (7nat, 'm', 'a', 't'),
        fingerprint("min_coin_qty"@) == (12nat, 'm', 'i', 'o'),
        fingerprint("min_native_pc_qty"@) == (17nat, 'm', 'i', 'a'),
        fingerprint("open_orders"@) == (11nat, 'o', 'p', 'o'),
        fingerprint("open_orders_market_authority"@) == (28nat, 'o', 'p', 'o'),
        fingerprint("open_orders_owner"@) == (17nat, 'o', 'p', 'o'),
        fingerprint("order_id"@) == (8nat, 'o', 'r', '_'),
        fingerprint("order_type"@) == (10nat, 'o', 'r', '_'),
        fingerprint("owner"@) == (5nat, 'o', 'w', ' '),
        fingerprint("owner_openOrders_account"@) == (24nat, 'o', 'w', '_'),
        fingerprint("owner_slot"@) == (10nat, 'o', 'w', '_'),
        fingerprint("pc_dust_threshold"@) == (17nat, 'p', 'c', 's'),
        fingerprint("pc_fee"@) == (6nat, 'p', 'c', 'e'),
        fingerprint("pc_lot_size"@) == (11nat, 'p', 'c', 't'),
        fingerprint("pc_vault"@) == (8nat, 'p', 'c', 'u'),
        fingerprint("pc_wallet"@) == (9nat, 'p', 'c', 'l'),
        fingerprint("price_currency"@) == (14nat, 'p', 'r', '_'),
        fingerprint("price_currency_mint"@) == (19nat, 'p', 'r', '_'),
        fingerprint("prune_authority"@) == (15nat, 'p', 'r', '_'),
        fingerprint("referrer_pc_wallet"@) == (18nat, 'r', 'e', 'r'),
        fingerprint("rent_sysvar"@) == (11nat, 'r', 'e', 's'),
        fingerprint("request_queue"@) == (13nat, 'r', 'e', 's'),
        fingerprint("self_trade_behavior"@) == (19nat, 's', 'e', 't'),
        fingerprint("side"@) == (4nat, 's', 'i', ' '),
        fingerprint("token_program"@) == (13nat, 't', 'o', '_'),
        fingerprint("value"@) == (5nat, 'v', 'a', ' '),
        fingerprint("vault_signer"@) == (12nat, 'v', 'a', '_'),
        fingerprint("vault_signer_nonce"@) == (18nat, 'v', 'a', '_'),
{
    reveal_strlit("SRM_account");
    reveal_strlit("account_paying");
    reveal_strlit("account_paying_for_the_order");
    reveal_strlit("asks");
    reveal_strlit("bids");
    reveal_strlit("client_id");
    reveal_strlit("client_order_id");
    reveal_strlit("coin_currency");
    reveal_strlit("coin_currency_mint");
    reveal_strlit("coin_fee");
    reveal_strlit("coin_lot_size");
    reveal_strlit("coin_vault");
    reveal_strlit("coin_wallet");
    reveal_strlit("crank_authority");
    reveal_strlit("destination_to_send_rent_exemption_sol");
    reveal_strlit("disable_authority");
    reveal_strlit("event_queue");
    reveal_strlit("fee_rate_bps");
    reveal_strlit("fee_receivable_account");
    reveal_strlit("fee_sweeping_authority");
    reveal_strlit("id");
    reveal_strlit("limit");
    reveal_strlit("limit_price");
    reveal_strlit("market");
    reveal_strlit("max_coin_qty");
    reveal_strlit("max_native_pc_qty_including_fees");
    reveal_strlit("max_qty");
    reveal_strlit("min_coin_qty");
    reveal_strlit("min_native_pc_qty");
    reveal_strlit("open_orders");
    reveal_strlit("open_orders_market_authority");
    reveal_strlit("open_orders_owner");
    reveal_strlit("order_id");
    reveal_strlit("order_type");
    reveal_strlit("owner");
    reveal_strlit("owner_openOrders_account");
    reveal_strlit("owner_slot");
    reveal_strlit("pc_dust_threshold");
    reveal_strlit("pc_fee");
    reveal_strlit("pc_lot_size");
    reveal_strlit("pc_vault");
    reveal_strlit("pc_wallet");
    reveal_strlit("price_currency");
    reveal_strlit("price_currency_mint");
    reveal_strlit("prune_authority");
    reveal_strlit("referrer_pc_wallet");
    reveal_strlit("rent_sysvar");
    reveal_strlit("request_queue");
    reveal_strlit("self_trade_behavior");
    reveal_strlit("side");
    reveal_strlit("token_program");
    reveal_strlit("value");
    reveal_strlit("vault_signer");
    reveal_strlit("vault_signer_nonce");
}

/// Whether `i` is one of the first 24 indices.
spec fn is_index(i: int) -> bool {
    i == 0 || i == 1 || i == 2 || i == 3 || i == 4 || i == 5 || i == 6 || i == 7 || i == 8 || i == 9
        || i == 10 || i == 11 || i == 12 || i == 13 || i == 14 || i == 15 || i == 16 || i == 17
        || i == 18 || i == 19 || i == 20 || i == 21 || i == 22 || i == 23
}

/// No two attributes of a record have the same name.
pub proof fn lemma_attribute_names_distinct(
    instruction: MarketInstructionView,
    texts: Seq<Seq<char>>,
    id: Seq<char>,
    i: int,
    j: int,
)
    requires
        0 <= i < j < attributes(instruction, texts, id).len(),
    ensures
        attributes(instruction, texts, id)[i].0 != attributes(instruction, texts, id)[j].0,
{
    // The names of a list are told apart by their fingerprints, one pair of
    // indices at a time.
    lemma_fingerprints();
    let a = attributes(instruction, texts, id);
    match instruction {
        MarketInstructionView::InitializeMarket(_) => {
            assert(a.len() == 19 && is_index(i) && is_index(j));
        },
        MarketInstructionView::NewOrder(_) => {
            assert(a.len() == 16 && is_index(i) && is_index(j));
        },
        MarketInstructionView::MatchOrders(_) => {
            assert(a.len() == 9 && is_index(i) && is_index(j));
        },
        MarketInstructionView::ConsumeEvents(_) => {
            assert(a.len() == 2 && is_index(i) && is_index(j));
        },
        MarketInstructionView::CancelOrder(_) => {
            assert(a.len() == 9 && is_index(i) && is_index(j));
        },
        MarketInstructionView::SettleFunds => {
            assert(a.len() == 11 && is_index(i) && is_index(j));
        },
        MarketInstructionView::CancelOrderByClientId(_) => {
            assert(a.len() == 6 && is_index(i) && is_index(j));
        },
        MarketInstructionView::DisableMarket => {
            assert(a.len() == 3 && is_index(i) && is_index(j));
        },
        MarketInstructionView::SweepFees => {
            assert(a.len() == 7 && is_index(i) && is_index(j));
        },
        MarketInstructionView::NewOrderV2(_) => {
            assert(a.len() == 17 && is_index(i) && is_index(j));
        },
        MarketInstructionView::NewOrderV3(_) => {
            assert(a.len() == 21 && is_index(i) && is_index(j));
        },
        MarketInstructionView::CancelOrderV2(_) => {
            assert(a.len() == 9 && is_index(i) && is_index(j));
        },
        MarketInstructionView::CancelOrderByClientIdV2(_) => {
            assert(a.len() == 6 && is_index(i) && is_index(j));
        },
        MarketInstructionView::SendTake(_) => {
            assert(a.len() == 12 && is_index(i) && is_index(j));
        },
        MarketInstructionView::CloseOpenOrders => {
            assert(a.len() == 5 && is_index(i) && is_index(j));
        },
        MarketInstructionView::InitOpenOrders => {
            assert(a.len() == 6 && is_index(i) && is_index(j));
        },
        MarketInstructionView::Prune(_) => {
            assert(a.len() == 9 && is_index(i) && is_index(j));
        },
        MarketInstructionView::ConsumeEventsPermissioned(_) => {
            assert(a.len() == 2 && is_index(i) && is_index(j));
        },
    }
}

/// An attribute that no later attribute of the list overwrites is in the
/// mapping with its value.
pub proof fn lemma_apply_lookup(
    m: Map<Seq<char>, ValueView>,
    attrs: Seq<(Seq<char>, ValueView)>,
    k: int,
)
    requires
        0 <= k < attrs.len(),
        forall|j: int| k < j < attrs.len() ==> attrs[j].0 != attrs[k].0,
    ensures
        apply(m, attrs).contains_key(attrs[k].0),
        apply(m, attrs)[attrs[k].0] == attrs[k].1,
    decreases attrs.len(),
{
    if k < attrs.len() - 1 {
        lemma_apply_lookup(m, attrs.drop_last(), k);
    }
}

/// A list of attributes gives the mapping exactly the names of the list.
pub proof fn lemma_apply_names(attrs: Seq<(Seq<char>, ValueView)>, name: Seq<char>)
    ensures
        apply(Map::empty(), attrs).contains_key(name) <==> exists|j: int|
            0 <= j < attrs.len() && #[trigger] attrs[j].0 == name,
    decreases attrs.len(),
{
    if attrs.len() > 0 {
        let front = attrs.drop_last();
        lemma_apply_names(front, name);
        if apply(Map::empty(), attrs).contains_key(name) {
            if attrs.last().0 == name {
                assert(attrs[attrs.len() - 1].0 == name);
            } else {
                let j = choose|j: int| 0 <= j < front.len() && #[trigger] front[j].0 == name;
                assert(attrs[j].0 == name);
            }
        }
        if exists|j: int| 0 <= j < attrs.len() && #[trigger] attrs[j].0 == name {
            let j = choose|j: int| 0 <= j < attrs.len() && #[trigger] attrs[j].0 == name;
            if j < front.len() {
                assert(front[j].0 == name);
            }
        }
    }
}

/// A list of attributes with distinct names gives a mapping with as many
/// entries as the list has.
pub proof fn lemma_apply_size(attrs: Seq<(Seq<char>, ValueView)>)
    requires
        forall|i: int, j: int| 0 <= i < j < attrs.len() ==> attrs[i].0 != attrs[j].0,
    ensures
        apply(Map::empty(), attrs).dom().finite(),
        apply(Map::empty(), attrs).dom().len() == attrs.len(),
    decreases attrs.len(),
{
    if attrs.len() > 0 {
        let front = attrs.drop_last();
        lemma_apply_size(front);
        lemma_apply_names(front, attrs.last().0);
        assert(apply(Map::empty(), attrs).dom() =~= apply(Map::empty(), front).dom().insert(
            attrs.last().0,
        ));
    } else {
        assert(apply(Map::<Seq<char>, ValueView>::empty(), attrs).dom() =~= Set::empty());
    }
}

/// Every attribute that the projection sets is in the record, with the value
/// that it was set to.
pub proof fn lemma_attribute_kept(
    instruction: MarketInstructionView,
    texts: Seq<Seq<char>>,
    id: Seq<char>,
    k: int,
)
    requires
        0 <= k < attributes(instruction, texts, id).len(),
    ensures
        record(instruction, texts, id).contains_key(attributes(instruction, texts, id)[k].0),
        record(instruction, texts, id)[attributes(instruction, texts, id)[k].0] == attributes(
            instruction,
            texts,
            id,
        )[k].1,
{
    let attrs = attributes(instruction, texts, id);
    assert forall|j: int| k < j < attrs.len() implies attrs[j].0 != attrs[k].0 by {
        lemma_attribute_names_distinct(instruction, texts, id, k, j);
    }
    lemma_apply_lookup(Map::empty(), attrs, k);
}

/// A record has one attribute for its identifier, one for each slot of the
/// role table and one for each field of the payload, and no other.
pub proof fn lemma_record_size(
    instruction: MarketInstructionView,
    texts: Seq<Seq<char>>,
    id: Seq<char>,
)
    ensures
        record(instruction, texts, id).dom().finite(),
        record(instruction, texts, id).dom().len() == 1 + role_table(instruction).len()
            + payload_attributes(instruction).len(),
{
    let attrs = attributes(instruction, texts, id);
    assert forall|i: int, j: int| 0 <= i < j < attrs.len() implies attrs[i].0 != attrs[j].0 by {
        lemma_attribute_names_distinct(instruction, texts, id, i, j);
    }
    lemma_apply_size(attrs);
}

/// A record carries its identifier under the name `id`. An identifier of the
/// form that the handler generates is not empty.
pub proof fn lemma_record_id(
    instruction: MarketInstructionView,
    texts: Seq<Seq<char>>,
    id: Seq<char>,
)
    ensures
        record(instruction, texts, id).contains_key("id"@),
        record(instruction, texts, id)["id"@] == ValueView::Text(id),
        is_record_id(id) ==> id.len() > 0,
{
    lemma_attribute_kept(instruction, texts, id, 0);
}

/// The account at slot `k` of the role table is in the record under the name
/// of that slot, as its text; where the account list has no slot `k`, the
/// record holds the empty text there.
pub proof fn lemma_account_slot(
    instruction: MarketInstructionView,
    texts: Seq<Seq<char>>,
    id: Seq<char>,
    k: int,
)
    requires
        0 <= k < role_table(instruction).len(),
    ensures
        record(instruction, texts, id).contains_key(role_table(instruction)[k]),
        record(instruction, texts, id)[role_table(instruction)[k]] == ValueView::Text(
            slot_text(texts, k),
        ),
        k >= texts.len() ==> record(instruction, texts, id)[role_table(instruction)[k]]
            == ValueView::Text(Seq::empty()),
{
    let accounts = account_attributes(role_table(instruction), texts);
    assert(attributes(instruction, texts, id)[k + 1] == accounts[k]);
    lemma_attribute_kept(instruction, texts, id, k + 1);
}

/// The field of the payload at index `k` of its attribute list is in the
/// record under its name, with its value.
pub proof fn lemma_payload_field(
    instruction: MarketInstructionView,
    texts: Seq<Seq<char>>,
    id: Seq<char>,
    k: int,
)
    requires
        0 <= k < payload_attributes(instruction).len(),
    ensures
        record(instruction, texts, id).contains_key(payload_attributes(instruction)[k].0),
        record(instruction, texts, id)[payload_attributes(instruction)[k].0] == payload_attributes(
            instruction,
        )[k].1,
{
    let n = 1 + role_table(instruction).len();
    assert(attributes(instruction, texts, id)[n + k] == payload_attributes(instruction)[k]);
    lemma_attribute_kept(instruction, texts, id, n + k);
}

/// The side that the payload of an instruction holds, if it holds one.
pub open spec fn side_of(instruction: MarketInstructionView) -> Option<Side> {
    match instruction {
        MarketInstructionView::NewOrder(p) => Some(p.side),
        MarketInstructionView::CancelOrder(p) => Some(p.side),
        MarketInstructionView::NewOrderV2(p) => Some(p.side),
        MarketInstructionView::NewOrderV3(p) => Some(p.side),
        MarketInstructionView::CancelOrderV2(p) => Some(p.side),
        MarketInstructionView::SendTake(p) => Some(p.side),
        _ => None,
    }
}

/// The order type that the payload of an instruction holds, if it holds one.
pub open spec fn order_type_of(instruction: MarketInstructionView) -> Option<OrderType> {
    match instruction {
        MarketInstructionView::NewOrder(p) => Some(p.order_type),
        MarketInstructionView::NewOrderV2(p) => Some(p.order_type),
        MarketInstructionView::NewOrderV3(p) => Some(p.order_type),
        _ => None,
    }
}

/// The self-trade behaviour that the payload of an instruction holds, if it
/// holds one.
pub open spec fn self_trade_behavior_of(instruction: MarketInstructionView) -> Option<
    SelfTradeBehavior,
> {
    match instruction {
        MarketInstructionView::NewOrderV2(p) => Some(p.self_trade_behavior),
        MarketInstructionView::NewOrderV3(p) => Some(p.self_trade_behavior),
        _ => None,
    }
}

/// A closed-variant field of the payload is in the record as the canonical
/// name of its variant.
pub proof fn lemma_closed_variants_by_name(
    instruction: MarketInstructionView,
    texts: Seq<Seq<char>>,
    id: Seq<char>,
)
    ensures
        side_of(instruction) matches Some(side) ==> record(instruction, texts, id)["side"@]
            == ValueView::Text(side.name_of()),
        order_type_of(instruction) matches Some(order_type) ==> record(
            instruction,
            texts,
            id,
        )["order_type"@] == ValueView::Text(order_type.name_of()),
        self_trade_behavior_of(instruction) matches Some(behavior) ==> record(
            instruction,
            texts,
            id,
        )["self_trade_behavior"@] == ValueView::Text(behavior.name_of()),
{
    match instruction {
        MarketInstructionView::NewOrder(_) => {
            lemma_payload_field(instruction, texts, id, 0);
            lemma_payload_field(instruction, texts, id, 3);
        },
        MarketInstructionView::CancelOrder(_) => {
            lemma_payload_field(instruction, texts, id, 0);
        },
        MarketInstructionView::NewOrderV2(_) => {
            lemma_payload_field(instruction, texts, id, 0);
            lemma_payload_field(instruction, texts, id, 3);
            lemma_payload_field(instruction, texts, id, 5);
        },
        MarketInstructionView::NewOrderV3(_) => {
            lemma_payload_field(instruction, texts, id, 0);
            lemma_payload_field(instruction, texts, id, 4);
            lemma_payload_field(instruction, texts, id, 5);
        },
        MarketInstructionView::CancelOrderV2(_) => {
            lemma_payload_field(instruction, texts, id, 0);
        },
        MarketInstructionView::SendTake(_) => {
            lemma_payload_field(instruction, texts, id, 0);
        },
        _ => {},
    }
}

/// The canonical name of a closed variant begins with a capital letter: it is
/// a word, and no number.
pub proof fn lemma_canonical_names_are_words(
    side: Side,
    order_type: OrderType,
    behavior: SelfTradeBehavior,
)
    ensures
        'A' <= side.name_of()[0] <= 'Z',
        'A' <= order_type.name_of()[0] <= 'Z',
        'A' <= behavior.name_of()[0] <= 'Z',
{
    reveal_strlit("Bid");
    reveal_strlit("Ask");
    reveal_strlit("Limit");
    reveal_strlit("ImmediateOrCancel");
    reveal_strlit("PostOnly");
    reveal_strlit("DecrementTake");
    reveal_strlit("CancelProvide");
    reveal_strlit("AbortTransaction");
}

/// What the handler hands to the sink for an instruction: a record under the
/// name of the variant, with a present identifier that is not empty, with
/// every slot of the role table by the text of its account or by the empty
/// text, with every field of the payload, and with nothing else.
pub proof fn lemma_projected_call<E>(
    call: SaveCall<E>,
    instruction: MarketInstructionView,
    accounts: Seq<Pubkey>,
)
    requires
        projects(call, instruction, accounts),
    ensures
        call.entity_name == entity_type_of(instruction),
        call.record.contains_key("id"@),
        call.record["id"@] matches ValueView::Text(id) && is_record_id(id) && id.len() > 0,
        forall|k: int|
            #![trigger role_table(instruction)[k]]
            0 <= k < role_table(instruction).len() ==> call.record[role_table(instruction)[k]]
                == ValueView::Text(slot_text(texts_of_keys(accounts), k)),
        forall|k: int|
            #![trigger payload_attributes(instruction)[k]]
            0 <= k < payload_attributes(instruction).len() ==> call.record[payload_attributes(
                instruction,
            )[k].0] == payload_attributes(instruction)[k].1,
        call.record.dom().finite(),
        call.record.dom().len() == 1 + role_table(instruction).len() + payload_attributes(
            instruction,
        ).len(),
{
    let texts = texts_of_keys(accounts);
    let id = choose|id: Seq<char>| #[trigger]
        is_record_id(id) && call.record == record(instruction, texts, id);
    lemma_record_id(instruction, texts, id);
    lemma_record_size(instruction, texts, id);
    assert forall|k: int| 0 <= k < role_table(instruction).len() implies call.record[role_table(
        instruction,
    )[k]] == ValueView::Text(slot_text(texts, k)) by {
        lemma_account_slot(instruction, texts, id, k);
    }
    assert forall|k: int|
        0 <= k < payload_attributes(instruction).len() implies call.record[payload_attributes(
        instruction,
    )[k].0] == payload_attributes(instruction)[k].1 by {
        lemma_payload_field(instruction, texts, id, k);
    }
}

/// The length of an entity name with its characters at the indices 3 and 9:
/// enough to tell the entity names apart.
pub open spec fn entity_fingerprint(s: Seq<char>) -> (nat, char, char) {
    (s.len(), mark(s, 3), mark(s, 9))
}

/// No two variants store their records under the same name.
pub proof fn lemma_entity_types_distinct(a: MarketInstructionView, b: MarketInstructionView)
    requires
        a.tag() != b.tag(),
    ensures
        entity_type_of(a) != entity_type_of(b),
{
    reveal_strlit("InitializeMarket");
    reveal_strlit("NewOrder");
    reveal_strlit("MatchOrders");
    reveal_strlit("ConsumeEvents");
    reveal_strlit("CancelOrder");
    reveal_strlit("SettleFunds");
    reveal_strlit("CancelOrderByClientId");
    reveal_strlit("DisableMarket");
    reveal_strlit("SweepFees");
    reveal_strlit("NewOrderV2");
    reveal_strlit("NewOrderV3");
    reveal_strlit("CancelOrderV2");
    reveal_strlit("CancelOrderByClientIdV2");
    reveal_strlit("SendTake");
    reveal_strlit("CloseOpenOrders");
    reveal_strlit("InitOpenOrders");
    reveal_strlit("Prune");
    reveal_strlit("ConsumeEventsPermissioned");
    assert(entity_fingerprint("InitializeMarket"@) == (16nat, 't', 'e'));
    assert(entity_fingerprint("NewOrder"@) == (8nat, 'O', ' '));
    assert(entity_fingerprint("MatchOrders"@) == (11nat, 'c', 'r'));
    assert(entity_fingerprint("ConsumeEvents"@) == (13nat, 's', 'e'));
    assert(entity_fingerprint("CancelOrder"@) == (11nat, 'c', 'e'));
    assert(entity_fingerprint("SettleFunds"@) == (11nat, 't', 'd'));
    assert(entity_fingerprint("CancelOrderByClientId"@) == (21nat, 'c', 'e'));
    assert(entity_fingerprint("DisableMarket"@) == (13nat, 'a', 'r'));
    assert(entity_fingerprint("SweepFees"@) == (9nat, 'e', ' '));
    assert(entity_fingerprint("NewOrderV2"@) == (10nat, 'O', '2'));
    assert(entity_fingerprint("NewOrderV3"@) == (10nat, 'O', '3'));
    assert(entity_fingerprint("CancelOrderV2"@) == (13nat, 'c', 'e'));
    assert(entity_fingerprint("CancelOrderByClientIdV2"@) == (23nat, 'c', 'e'));
    assert(entity_fingerprint("SendTake"@) == (8nat, 'd', ' '));
    assert(entity_fingerprint("CloseOpenOrders"@) == (15nat, 's', 'O'));
    assert(entity_fingerprint("InitOpenOrders"@) == (14nat, 't', 'r'));
    assert(entity_fingerprint("Prune"@) == (5nat, 'n', ' '));
    assert(entity_fingerprint("ConsumeEventsPermissioned"@) == (25nat, 's', 'e'));
    assert(entity_fingerprint(entity_type_of(a)) != entity_fingerprint(entity_type_of(b)));
}

} // verus!
