//! The instructions of the exchange program and their wire format.
//!
//! An instruction arrives as one byte string: a framing byte that is skipped,
//! a four-byte little-endian tag, and a payload whose length and layout the
//! tag fixes. A payload of another length, a closed-variant field whose
//! ordinal is unknown, or a non-zero field that reads as zero makes the whole
//! string decode to nothing.

use vstd::prelude::*;
use vstd::slice::slice_subrange;
use crate::codec::{decode_uint, field_value, le_u16, le_u32, le_u64, le_u8, u128_at, u16_at, u32_at, u64_at, u8_at};
use crate::nonzero::NonZeroU64;

verus! {

/// Whether the executable result `r` is what the model `m` says: both are
/// nothing, or `m` is the view of what `r` holds.
pub open spec fn agrees<T: View>(r: Option<T>, m: Option<T::V>) -> bool {
    match r {
        Some(v) => m == Some(v@),
        None => m is None,
    }
}

/// The side of the book that an order is on.
#[derive(Clone, Copy, PartialEq, Eq, Debug)]
pub enum Side {
    Bid,
    Ask,
}

impl Side {
    /// The side with ordinal `n`, if there is one.
    pub open spec fn of_ordinal(n: nat) -> Option<Side> {
        if n == 0 {
            Some(Side::Bid)
        } else if n == 1 {
            Some(Side::Ask)
        } else {
            None
        }
    }

    /// What a field of four little-endian bytes decodes to.
    pub open spec fn decode(bytes: Seq<u8>) -> Option<Side> {
        match decode_uint(bytes, 4) {
            Some(n) => Self::of_ordinal(n),
            None => None,
        }
    }

    /// The canonical name of the side.
    pub open spec fn name_of(self) -> Seq<char> {
        match self {
            Side::Bid => "Bid"@,
            Side::Ask => "Ask"@,
        }
    }

    /// The side with ordinal `ordinal`, if there is one.
    pub fn from_ordinal(ordinal: u32) -> (r: Option<Side>)
        ensures
            r == Self::of_ordinal(ordinal as nat),
    {
        if ordinal == 0 {
            Some(Side::Bid)
        } else if ordinal == 1 {
            Some(Side::Ask)
        } else {
            None
        }
    }

    /// Decodes a field of four little-endian bytes that holds an ordinal.
    pub fn unpack(input: &[u8]) -> (r: Option<Side>)
        ensures
            r == Self::decode(input@),
    {
        match le_u32(input) {
            Some(ordinal) => Self::from_ordinal(ordinal),
            None => None,
        }
    }

    /// The canonical name of the side.
    pub fn name(&self) -> (s: &'static str)
        ensures
            s@ == self.name_of(),
    {
        match self {
            Side::Bid => "Bid",
            Side::Ask => "Ask",
        }
    }
}

/// How an order may rest on the book.
#[derive(Clone, Copy, PartialEq, Eq, Debug)]
pub enum OrderType {
    Limit,
    ImmediateOrCancel,
    PostOnly,
}

impl OrderType {
    /// The order type with ordinal `n`, if there is one.
    pub open spec fn of_ordinal(n: nat) -> Option<OrderType> {
        if n == 0 {
            Some(OrderType::Limit)
        } else if n == 1 {
            Some(OrderType::ImmediateOrCancel)
        } else if n == 2 {
            Some(OrderType::PostOnly)
        } else {
            None
        }
    }

    /// What a field of four little-endian bytes decodes to.
    pub open spec fn decode(bytes: Seq<u8>) -> Option<OrderType> {
        match decode_uint(bytes, 4) {
            Some(n) => Self::of_ordinal(n),
            None => None,
        }
    }

    /// The canonical name of the order type.
    pub open spec fn name_of(self) -> Seq<char> {
        match self {
            OrderType::Limit => "Limit"@,
            OrderType::ImmediateOrCancel => "ImmediateOrCancel"@,
            OrderType::PostOnly => "PostOnly"@,
        }
    }

    /// The order type with ordinal `ordinal`, if there is one.
    pub fn from_ordinal(ordinal: u32) -> (r: Option<OrderType>)
        ensures
            r == Self::of_ordinal(ordinal as nat),
    {
        if ordinal == 0 {
            Some(OrderType::Limit)
        } else if ordinal == 1 {
            Some(OrderType::ImmediateOrCancel)
        } else if ordinal == 2 {
            Some(OrderType::PostOnly)
        } else {
            None
        }
    }

    /// Decodes a field of four little-endian bytes that holds an ordinal.
    pub fn unpack(input: &[u8]) -> (r: Option<OrderType>)
        ensures
            r == Self::decode(input@),
    {
        match le_u32(input) {
            Some(ordinal) => Self::from_ordinal(ordinal),
            None => None,
        }
    }

    /// The canonical name of the order type.
    pub fn name(&self) -> (s: &'static str)
        ensures
            s@ == self.name_of(),
    {
        match self {
            OrderType::Limit => "Limit",
            OrderType::ImmediateOrCancel => "ImmediateOrCancel",
            OrderType::PostOnly => "PostOnly",
        }
    }
}

/// What happens when an order would trade against its owner's own order.
#[derive(Clone, Copy, PartialEq, Eq, Debug)]
pub enum SelfTradeBehavior {
    DecrementTake,
    CancelProvide,
    AbortTransaction,
}

impl SelfTradeBehavior {
    /// The behaviour with ordinal `n`, if there is one.
    pub open spec fn of_ordinal(n: nat) -> Option<SelfTradeBehavior> {
        if n == 0 {
            Some(SelfTradeBehavior::DecrementTake)
        } else if n == 1 {
            Some(SelfTradeBehavior::CancelProvide)
        } else if n == 2 {
            Some(SelfTradeBehavior::AbortTransaction)
        } else {
            None
        }
    }

    /// What a field of four little-endian bytes decodes to.
    pub open spec fn decode(bytes: Seq<u8>) -> Option<SelfTradeBehavior> {
        match decode_uint(bytes, 4) {
            Some(n) => Self::of_ordinal(n),
            None => None,
        }
    }

    /// What a field of a single byte decodes to.
    pub open spec fn decode_byte(bytes: Seq<u8>) -> Option<SelfTradeBehavior> {
        match decode_uint(bytes, 1) {
            Some(n) => Self::of_ordinal(n),
            None => None,
        }
    }

    /// The canonical name of the behaviour.
    pub open spec fn name_of(self) -> Seq<char> {
        match self {
            SelfTradeBehavior::DecrementTake => "DecrementTake"@,
            SelfTradeBehavior::CancelProvide => "CancelProvide"@,
            SelfTradeBehavior::AbortTransaction => "AbortTransaction"@,
        }
    }

    /// The behaviour with ordinal `ordinal`, if there is one.
    pub fn from_ordinal(ordinal: u32) -> (r: Option<SelfTradeBehavior>)
        ensures
            r == Self::of_ordinal(ordinal as nat),
    {
        if ordinal == 0 {
            Some(SelfTradeBehavior::DecrementTake)
        } else if ordinal == 1 {
            Some(SelfTradeBehavior::CancelProvide)
        } else if ordinal == 2 {
            Some(SelfTradeBehavior::AbortTransaction)
        } else {
            None
        }
    }

    /// Decodes a field of four little-endian bytes that holds an ordinal.
    pub fn unpack(input: &[u8]) -> (r: Option<SelfTradeBehavior>)
        ensures
            r == Self::decode(input@),
    {
        match le_u32(input) {
            Some(ordinal) => Self::from_ordinal(ordinal),
            None => None,
        }
    }

    /// Decodes a field of a single byte that holds an ordinal.
    pub fn unpack_byte(input: &[u8]) -> (r: Option<SelfTradeBehavior>)
        ensures
            r == Self::decode_byte(input@),
    {
        match le_u8(input) {
            Some(ordinal) => Self::from_ordinal(ordinal as u32),
            None => None,
        }
    }

    /// The canonical name of the behaviour.
    pub fn name(&self) -> (s: &'static str)
        ensures
            s@ == self.name_of(),
    {
        match self {
            SelfTradeBehavior::DecrementTake => "DecrementTake",
            SelfTradeBehavior::CancelProvide => "CancelProvide",
            SelfTradeBehavior::AbortTransaction => "AbortTransaction",
        }
    }
}

/// The payload of `InitializeMarket`: 34 bytes.
#[derive(Clone, PartialEq, Debug)]
pub struct InitializeMarketInstruction {
    pub coin_lot_size: u64,
    pub pc_lot_size: u64,
    pub fee_rate_bps: u16,
    pub vault_signer_nonce: u64,
    pub pc_dust_threshold: u64,
}

impl View for InitializeMarketInstruction {
    type V = InitializeMarketInstruction;

    open spec fn view(&self) -> InitializeMarketInstruction {
        *self
    }
}

impl InitializeMarketInstruction {
    /// What a payload decodes to: its five fields, of 8, 8, 2, 8 and 8 bytes,
    /// when it has exactly 34 bytes.
    pub open spec fn decode(b: Seq<u8>) -> Option<InitializeMarketInstruction> {
        if b.len() != 34 {
            None
        } else {
            Some(
                InitializeMarketInstruction {
                    coin_lot_size: field_value(b, 0, 8) as u64,
                    pc_lot_size: field_value(b, 8, 8) as u64,
                    fee_rate_bps: field_value(b, 16, 2) as u16,
                    vault_signer_nonce: field_value(b, 18, 8) as u64,
                    pc_dust_threshold: field_value(b, 26, 8) as u64,
                },
            )
        }
    }

    /// Decodes the payload of `InitializeMarket`.
    pub fn unpack(input: &[u8]) -> (r: Option<InitializeMarketInstruction>)
        ensures
            agrees(r, Self::decode(input@)),
    {
        if input.len() != 34 {
            return None;
        }
        Some(
            InitializeMarketInstruction {
                coin_lot_size: u64_at(input, 0),
                pc_lot_size: u64_at(input, 8),
                fee_rate_bps: u16_at(input, 16),
                vault_signer_nonce: u64_at(input, 18),
                pc_dust_threshold: u64_at(input, 26),
            },
        )
    }
}

/// The payload of `NewOrder`: 32 bytes.
#[derive(Clone, PartialEq, Debug)]
pub struct NewOrderInstructionV1 {
    pub side: Side,
    pub limit_price: NonZeroU64,
    pub max_qty: NonZeroU64,
    pub order_type: OrderType,
    pub client_id: u64,
}

/// A `NewOrderInstructionV1` as plain values.
pub struct NewOrderV1View {
    pub side: Side,
    pub limit_price: u64,
    pub max_qty: u64,
    pub order_type: OrderType,
    pub client_id: u64,
}

impl View for NewOrderInstructionV1 {
    type V = NewOrderV1View;

    open spec fn view(&self) -> NewOrderV1View {
        NewOrderV1View {
            side: self.side,
            limit_price: self.limit_price@,
            max_qty: self.max_qty@,
            order_type: self.order_type,
            client_id: self.client_id,
        }
    }
}

impl NewOrderInstructionV1 {
    /// What a payload decodes to: its five fields, of 4, 8, 8, 4 and 8 bytes,
    /// when it has exactly 32 bytes and each field decodes.
    pub open spec fn decode(b: Seq<u8>) -> Option<NewOrderV1View> {
        if b.len() != 32 {
            None
        } else {
            match (
                Side::decode(b.subrange(0, 4)),
                NonZeroU64::decode(b.subrange(4, 12)),
                NonZeroU64::decode(b.subrange(12, 20)),
                OrderType::decode(b.subrange(20, 24)),
            ) {
                (Some(side), Some(limit_price), Some(max_qty), Some(order_type)) => Some(
                    NewOrderV1View {
                        side,
                        limit_price,
                        max_qty,
                        order_type,
                        client_id: field_value(b, 24, 8) as u64,
                    },
                ),
                _ => None,
            }
        }
    }

    /// Decodes the payload of `NewOrder`.
    pub fn unpack(input: &[u8]) -> (r: Option<NewOrderInstructionV1>)
        ensures
            agrees(r, Self::decode(input@)),
    {
        if input.len() != 32 {
            return None;
        }
        let side = Side::unpack(slice_subrange(input, 0, 4));
        let limit_price = NonZeroU64::unpack(slice_subrange(input, 4, 12));
        let max_qty = NonZeroU64::unpack(slice_subrange(input, 12, 20));
        let order_type = OrderType::unpack(slice_subrange(input, 20, 24));
        match (side, limit_price, max_qty, order_type) {
            (Some(side), Some(limit_price), Some(max_qty), Some(order_type)) => Some(
                NewOrderInstructionV1 {
                    side,
                    limit_price,
                    max_qty,
                    order_type,
                    client_id: u64_at(input, 24),
                },
            ),
            _ => None,
        }
    }
}

/// The payload of `NewOrderV2`: 33 bytes.
#[derive(Clone, PartialEq, Debug)]
pub struct NewOrderInstructionV2 {
    pub side: Side,
    pub limit_price: NonZeroU64,
    pub max_qty: NonZeroU64,
    pub order_type: OrderType,
    pub client_id: u64,
    pub self_trade_behavior: SelfTradeBehavior,
}

/// A `NewOrderInstructionV2` as plain values.
pub struct NewOrderV2View {
    pub side: Side,
    pub limit_price: u64,
    pub max_qty: u64,
    pub order_type: OrderType,
    pub client_id: u64,
    pub self_trade_behavior: SelfTradeBehavior,
}

impl View for NewOrderInstructionV2 {
    type V = NewOrderV2View;

    open spec fn view(&self) -> NewOrderV2View {
        NewOrderV2View {
            side: self.side,
            limit_price: self.limit_price@,
            max_qty: self.max_qty@,
            order_type: self.order_type,
            client_id: self.client_id,
            self_trade_behavior: self.self_trade_behavior,
        }
    }
}

impl NewOrderInstructionV2 {
    /// What a payload decodes to: its six fields, of 4, 8, 8, 4, 8 and 1
    /// bytes, when it has exactly 33 bytes and each field decodes. The last
    /// field holds its ordinal in a single byte.
    pub open spec fn decode(b: Seq<u8>) -> Option<NewOrderV2View> {
        if b.len() != 33 {
            None
        } else {
            match (
                Side::decode(b.subrange(0, 4)),
                NonZeroU64::decode(b.subrange(4, 12)),
                NonZeroU64::decode(b.subrange(12, 20)),
                OrderType::decode(b.subrange(20, 24)),
                SelfTradeBehavior::decode_byte(b.subrange(32, 33)),
            ) {
                (
                    Some(side),
                    Some(limit_price),
                    Some(max_qty),
                    Some(order_type),
                    Some(self_trade_behavior),
                ) => Some(
                    NewOrderV2View {
                        side,
                        limit_price,
                        max_qty,
                        order_type,
                        client_id: field_value(b, 24, 8) as u64,
                        self_trade_behavior,
                    },
                ),
                _ => None,
            }
        }
    }

    /// Decodes the payload of `NewOrderV2`.
    pub fn unpack(input: &[u8]) -> (r: Option<NewOrderInstructionV2>)
        ensures
            agrees(r, Self::decode(input@)),
    {
        if input.len() != 33 {
            return None;
        }
        let side = Side::unpack(slice_subrange(input, 0, 4));
        let limit_price = NonZeroU64::unpack(slice_subrange(input, 4, 12));
        let max_qty = NonZeroU64::unpack(slice_subrange(input, 12, 20));
        let order_type = OrderType::unpack(slice_subrange(input, 20, 24));
        let self_trade_behavior = SelfTradeBehavior::unpack_byte(slice_subrange(input, 32, 33));
        match (side, limit_price, max_qty, order_type, self_trade_behavior) {
            (
                Some(side),
                Some(limit_price),
                Some(max_qty),
                Some(order_type),
                Some(self_trade_behavior),
            ) => Some(
                NewOrderInstructionV2 {
                    side,
                    limit_price,
                    max_qty,
                    order_type,
                    client_id: u64_at(input, 24),
                    self_trade_behavior,
                },
            ),
            _ => None,
        }
    }
}

/// The payload of `NewOrderV3`: 46 bytes.
#[derive(Clone, PartialEq, Debug)]
pub struct NewOrderInstructionV3 {
    pub side: Side,
    pub limit_price: NonZeroU64,
    pub max_coin_qty: NonZeroU64,
    pub max_native_pc_qty_including_fees: NonZeroU64,
    pub self_trade_behavior: SelfTradeBehavior,
    pub order_type: OrderType,
    pub client_order_id: u64,
    pub limit: u16,
}

/// A `NewOrderInstructionV3` as plain values.
pub struct NewOrderV3View {
    pub side: Side,
    pub limit_price: u64,
    pub max_coin_qty: u64,
    pub max_native_pc_qty_including_fees: u64,
    pub self_trade_behavior: SelfTradeBehavior,
    pub order_type: OrderType,
    pub client_order_id: u64,
    pub limit: u16,
}

impl View for NewOrderInstructionV3 {
    type V = NewOrderV3View;

    open spec fn view(&self) -> NewOrderV3View {
        NewOrderV3View {
            side: self.side,
            limit_price: self.limit_price@,
            max_coin_qty: self.max_coin_qty@,
            max_native_pc_qty_including_fees: self.max_native_pc_qty_including_fees@,
            self_trade_behavior: self.self_trade_behavior,
            order_type: self.order_type,
            client_order_id: self.client_order_id,
            limit: self.limit,
        }
    }
}

impl NewOrderInstructionV3 {
    /// What a payload decodes to: its eight fields, of 4, 8, 8, 8, 4, 4, 8
    /// and 2 bytes, when it has exactly 46 bytes and each field decodes.
    pub open spec fn decode(b: Seq<u8>) -> Option<NewOrderV3View> {
        if b.len() != 46 {
            None
        } else {
            match (
                Side::decode(b.subrange(0, 4)),
                NonZeroU64::decode(b.subrange(4, 12)),
                NonZeroU64::decode(b.subrange(12, 20)),
                NonZeroU64::decode(b.subrange(20, 28)),
                SelfTradeBehavior::decode(b.subrange(28, 32)),
                OrderType::decode(b.subrange(32, 36)),
            ) {
                (
                    Some(side),
                    Some(limit_price),
                    Some(max_coin_qty),
                    Some(max_native_pc_qty_including_fees),
                    Some(self_trade_behavior),
                    Some(order_type),
                ) => Some(
                    NewOrderV3View {
                        side,
                        limit_price,
                        max_coin_qty,
                        max_native_pc_qty_including_fees,
                        self_trade_behavior,
                        order_type,
                        client_order_id: field_value(b, 36, 8) as u64,
                        limit: field_value(b, 44, 2) as u16,
                    },
                ),
                _ => None,
            }
        }
    }

    /// Decodes the payload of `NewOrderV3`.
    pub fn unpack(input: &[u8]) -> (r: Option<NewOrderInstructionV3>)
        ensures
            agrees(r, Self::decode(input@)),
    {
        if input.len() != 46 {
            return None;
        }
        let side = Side::unpack(slice_subrange(input, 0, 4));
        let limit_price = NonZeroU64::unpack(slice_subrange(input, 4, 12));
        let max_coin_qty = NonZeroU64::unpack(slice_subrange(input, 12, 20));
        let max_native_pc_qty_including_fees = NonZeroU64::unpack(slice_subrange(input, 20, 28));
        let self_trade_behavior = SelfTradeBehavior::unpack(slice_subrange(input, 28, 32));
        let order_type = OrderType::unpack(slice_subrange(input, 32, 36));
        match (
            side,
            limit_price,
            max_coin_qty,
            max_native_pc_qty_including_fees,
            self_trade_behavior,
            order_type,
        ) {
            (
                Some(side),
                Some(limit_price),
                Some(max_coin_qty),
                Some(max_native_pc_qty_including_fees),
                Some(self_trade_behavior),
                Some(order_type),
            ) => Some(
                NewOrderInstructionV3 {
                    side,
                    limit_price,
                    max_coin_qty,
                    max_native_pc_qty_including_fees,
                    self_trade_behavior,
                    order_type,
                    client_order_id: u64_at(input, 36),
                    limit: u16_at(input, 44),
                },
            ),
            _ => None,
        }
    }
}

/// The payload of `SendTake`: 46 bytes.
#[derive(Clone, PartialEq, Debug)]
pub struct SendTakeInstruction {
    pub side: Side,
    pub limit_price: NonZeroU64,
    pub max_coin_qty: NonZeroU64,
    pub max_native_pc_qty_including_fees: NonZeroU64,
    pub min_coin_qty: u64,
    pub min_native_pc_qty: u64,
    pub limit: u16,
}

/// A `SendTakeInstruction` as plain values.
pub struct SendTakeView {
    pub side: Side,
    pub limit_price: u64,
    pub max_coin_qty: u64,
    pub max_native_pc_qty_including_fees: u64,
    pub min_coin_qty: u64,
    pub min_native_pc_qty: u64,
    pub limit: u16,
}

impl View for SendTakeInstruction {
    type V = SendTakeView;

    open spec fn view(&self) -> SendTakeView {
        SendTakeView {
            side: self.side,
            limit_price: self.limit_price@,
            max_coin_qty: self.max_coin_qty@,
            max_native_pc_qty_including_fees: self.max_native_pc_qty_including_fees@,
            min_coin_qty: self.min_coin_qty,
            min_native_pc_qty: self.min_native_pc_qty,
            limit: self.limit,
        }
    }
}

impl SendTakeInstruction {
    /// What a payload decodes to: its seven fields, of 4, 8, 8, 8, 8, 8 and 2
    /// bytes, when it has exactly 46 bytes and each field decodes.
    pub open spec fn decode(b: Seq<u8>) -> Option<SendTakeView> {
        if b.len() != 46 {
            None
        } else {
            match (
                Side::decode(b.subrange(0, 4)),
                NonZeroU64::decode(b.subrange(4, 12)),
                NonZeroU64::decode(b.subrange(12, 20)),
                NonZeroU64::decode(b.subrange(20, 28)),
            ) {
                (
                    Some(side),
                    Some(limit_price),
                    Some(max_coin_qty),
                    Some(max_native_pc_qty_including_fees),
                ) => Some(
                    SendTakeView {
                        side,
                        limit_price,
                        max_coin_qty,
                        max_native_pc_qty_including_fees,
                        min_coin_qty: field_value(b, 28, 8) as u64,
                        min_native_pc_qty: field_value(b, 36, 8) as u64,
                        limit: field_value(b, 44, 2) as u16,
                    },
                ),
                _ => None,
            }
        }
    }

    /// Decodes the payload of `SendTake`.
    pub fn unpack(input: &[u8]) -> (r: Option<SendTakeInstruction>)
        ensures
            agrees(r, Self::decode(input@)),
    {
        if input.len() != 46 {
            return None;
        }
        let side = Side::unpack(slice_subrange(input, 0, 4));
        let limit_price = NonZeroU64::unpack(slice_subrange(input, 4, 12));
        let max_coin_qty = NonZeroU64::unpack(slice_subrange(input, 12, 20));
        let max_native_pc_qty_including_fees = NonZeroU64::unpack(slice_subrange(input, 20, 28));
        match (side, limit_price, max_coin_qty, max_native_pc_qty_including_fees) {
            (
                Some(side),
                Some(limit_price),
                Some(max_coin_qty),
                Some(max_native_pc_qty_including_fees),
            ) => Some(
                SendTakeInstruction {
                    side,
                    limit_price,
                    max_coin_qty,
                    max_native_pc_qty_including_fees,
                    min_coin_qty: u64_at(input, 28),
                    min_native_pc_qty: u64_at(input, 36),
                    limit: u16_at(input, 44),
                },
            ),
            _ => None,
        }
    }
}

/// The payload of `CancelOrder`: 53 bytes.
#[derive(Clone, PartialEq, Debug)]
pub struct CancelOrderInstruction {
    pub side: Side,
    pub order_id: u128,
    pub owner: Vec<u64>,
    pub owner_slot: u8,
}

/// A `CancelOrderInstruction` as plain values.
pub struct CancelOrderView {
    pub side: Side,
    pub order_id: u128,
    pub owner: Seq<u64>,
    pub owner_slot: u8,
}

impl View for CancelOrderInstruction {
    type V = CancelOrderView;

    open spec fn view(&self) -> CancelOrderView {
        CancelOrderView {
            side: self.side,
            order_id: self.order_id,
            owner: self.owner@,
            owner_slot: self.owner_slot,
        }
    }
}

impl CancelOrderInstruction {
    /// What a payload decodes to: a side of 4 bytes, an order id of 16, an
    /// owner of four numbers of 8 bytes each, and a slot of 1 byte, when it
    /// has exactly 53 bytes and the side decodes.
    pub open spec fn decode(b: Seq<u8>) -> Option<CancelOrderView> {
        if b.len() != 53 {
            None
        } else {
            match Side::decode(b.subrange(0, 4)) {
                Some(side) => Some(
                    CancelOrderView {
                        side,
                        order_id: field_value(b, 4, 16) as u128,
                        owner: seq![
                            field_value(b, 20, 8) as u64,
                            field_value(b, 28, 8) as u64,
                            field_value(b, 36, 8) as u64,
                            field_value(b, 44, 8) as u64,
                        ],
                        owner_slot: field_value(b, 52, 1) as u8,
                    },
                ),
                None => None,
            }
        }
    }

    /// Decodes the payload of `CancelOrder`.
    pub fn unpack(input: &[u8]) -> (r: Option<CancelOrderInstruction>)
        ensures
            agrees(r, Self::decode(input@)),
    {
        if input.len() != 53 {
            return None;
        }
        match Side::unpack(slice_subrange(input, 0, 4)) {
            Some(side) => {
                let mut owner: Vec<u64> = Vec::new();
                owner.push(u64_at(input, 20));
                owner.push(u64_at(input, 28));
                owner.push(u64_at(input, 36));
                owner.push(u64_at(input, 44));
                let instruction = CancelOrderInstruction {
                    side,
                    order_id: u128_at(input, 4),
                    owner,
                    owner_slot: u8_at(input, 52),
                };
                proof {
                    let model = Self::decode(input@)->0;
                    assert(instruction@.owner =~= model.owner);
                }
                Some(instruction)
            },
            None => None,
        }
    }
}

/// The payload of `CancelOrderV2`: 20 bytes.
#[derive(Clone, PartialEq, Debug)]
pub struct CancelOrderInstructionV2 {
    pub side: Side,
    pub order_id: u128,
}

impl View for CancelOrderInstructionV2 {
    type V = CancelOrderInstructionV2;

    open spec fn view(&self) -> CancelOrderInstructionV2 {
        *self
    }
}

impl CancelOrderInstructionV2 {
    /// What a payload decodes to: a side of 4 bytes and an order id of 16,
    /// when it has exactly 20 bytes and the side decodes.
    pub open spec fn decode(b: Seq<u8>) -> Option<CancelOrderInstructionV2> {
        if b.len() != 20 {
            None
        } else {
            match Side::decode(b.subrange(0, 4)) {
                Some(side) => Some(
                    CancelOrderInstructionV2 { side, order_id: field_value(b, 4, 16) as u128 },
                ),
                None => None,
            }
        }
    }

    /// Decodes the payload of `CancelOrderV2`.
    pub fn unpack(input: &[u8]) -> (r: Option<CancelOrderInstructionV2>)
        ensures
            agrees(r, Self::decode(input@)),
    {
        if input.len() != 20 {
            return None;
        }
        match Side::unpack(slice_subrange(input, 0, 4)) {
            Some(side) => Some(CancelOrderInstructionV2 { side, order_id: u128_at(input, 4) }),
            None => None,
        }
    }
}

/// One instruction of the exchange program. The variants stand in the order
/// of their tags, from 0 to 17.
#[derive(Clone, PartialEq, Debug)]
pub enum MarketInstruction {
    InitializeMarket(InitializeMarketInstruction),
    NewOrder(NewOrderInstructionV1),
    MatchOrders(u16),
    ConsumeEvents(u16),
    CancelOrder(CancelOrderInstruction),
    SettleFunds,
    CancelOrderByClientId(u64),
    DisableMarket,
    SweepFees,
    NewOrderV2(NewOrderInstructionV2),
    NewOrderV3(NewOrderInstructionV3),
    CancelOrderV2(CancelOrderInstructionV2),
    CancelOrderByClientIdV2(u64),
    SendTake(SendTakeInstruction),
    CloseOpenOrders,
    InitOpenOrders,
    Prune(u16),
    ConsumeEventsPermissioned(u16),
}

/// A `MarketInstruction` as plain values.
pub enum MarketInstructionView {
    InitializeMarket(InitializeMarketInstruction),
    NewOrder(NewOrderV1View),
    MatchOrders(u16),
    ConsumeEvents(u16),
    CancelOrder(CancelOrderView),
    SettleFunds,
    CancelOrderByClientId(u64),
    DisableMarket,
    SweepFees,
    NewOrderV2(NewOrderV2View),
    NewOrderV3(NewOrderV3View),
    CancelOrderV2(CancelOrderInstructionV2),
    CancelOrderByClientIdV2(u64),
    SendTake(SendTakeView),
    CloseOpenOrders,
    InitOpenOrders,
    Prune(u16),
    ConsumeEventsPermissioned(u16),
}

impl View for MarketInstruction {
    type V = MarketInstructionView;

    open spec fn view(&self) -> MarketInstructionView {
        match *self {
            MarketInstruction::InitializeMarket(payload) => MarketInstructionView::InitializeMarket(payload@),
            MarketInstruction::NewOrder(payload) => MarketInstructionView::NewOrder(payload@),
            MarketInstruction::MatchOrders(value) => MarketInstructionView::MatchOrders(value),
            MarketInstruction::ConsumeEvents(value) => MarketInstructionView::ConsumeEvents(value),
            MarketInstruction::CancelOrder(payload) => MarketInstructionView::CancelOrder(payload@),
            MarketInstruction::SettleFunds => MarketInstructionView::SettleFunds,
            MarketInstruction::CancelOrderByClientId(value) => MarketInstructionView::CancelOrderByClientId(value),
            MarketInstruction::DisableMarket => MarketInstructionView::DisableMarket,
            MarketInstruction::SweepFees => MarketInstructionView::SweepFees,
            MarketInstruction::NewOrderV2(payload) => MarketInstructionView::NewOrderV2(payload@),
            MarketInstruction::NewOrderV3(payload) => MarketInstructionView::NewOrderV3(payload@),
            MarketInstruction::CancelOrderV2(payload) => MarketInstructionView::CancelOrderV2(payload@),
            MarketInstruction::CancelOrderByClientIdV2(value) => MarketInstructionView::CancelOrderByClientIdV2(value),
            MarketInstruction::SendTake(payload) => MarketInstructionView::SendTake(payload@),
            MarketInstruction::CloseOpenOrders => MarketInstructionView::CloseOpenOrders,
            MarketInstruction::InitOpenOrders => MarketInstructionView::InitOpenOrders,
            MarketInstruction::Prune(value) => MarketInstructionView::Prune(value),
            MarketInstruction::ConsumeEventsPermissioned(value) => MarketInstructionView::ConsumeEventsPermissioned(value),
        }
    }
}

impl MarketInstructionView {
    /// The tag under which the instruction travels.
    pub open spec fn tag(self) -> nat {
        match self {
            MarketInstructionView::InitializeMarket(_) => 0,
            MarketInstructionView::NewOrder(_) => 1,
            MarketInstructionView::MatchOrders(_) => 2,
            MarketInstructionView::ConsumeEvents(_) => 3,
            MarketInstructionView::CancelOrder(_) => 4,
            MarketInstructionView::SettleFunds => 5,
            MarketInstructionView::CancelOrderByClientId(_) => 6,
            MarketInstructionView::DisableMarket => 7,
            MarketInstructionView::SweepFees => 8,
            MarketInstructionView::NewOrderV2(_) => 9,
            MarketInstructionView::NewOrderV3(_) => 10,
            MarketInstructionView::CancelOrderV2(_) => 11,
            MarketInstructionView::CancelOrderByClientIdV2(_) => 12,
            MarketInstructionView::SendTake(_) => 13,
            MarketInstructionView::CloseOpenOrders => 14,
            MarketInstructionView::InitOpenOrders => 15,
            MarketInstructionView::Prune(_) => 16,
            MarketInstructionView::ConsumeEventsPermissioned(_) => 17,
        }
    }
}

/// The number of payload bytes that the wire format declares for `tag`, for
/// the tags from 0 to 17.
pub open spec fn payload_len(tag: nat) -> Option<nat> {
    if tag == 0 {
        Some(34)
    } else if tag == 1 {
        Some(32)
    } else if tag == 2 {
        Some(2)
    } else if tag == 3 {
        Some(2)
    } else if tag == 4 {
        Some(53)
    } else if tag == 5 {
        Some(0)
    } else if tag == 6 {
        Some(8)
    } else if tag == 7 {
        Some(0)
    } else if tag == 8 {
        Some(0)
    } else if tag == 9 {
        Some(33)
    } else if tag == 10 {
        Some(46)
    } else if tag == 11 {
        Some(20)
    } else if tag == 12 {
        Some(8)
    } else if tag == 13 {
        Some(46)
    } else if tag == 14 {
        Some(0)
    } else if tag == 15 {
        Some(0)
    } else if tag == 16 {
        Some(2)
    } else if tag == 17 {
        Some(2)
    } else {
        None
    }
}

/// The model of `x`, tagged by `f`.
pub open spec fn tagged<A>(x: Option<A>, f: spec_fn(A) -> MarketInstructionView) -> Option<
    MarketInstructionView,
> {
    match x {
        Some(a) => Some(f(a)),
        None => None,
    }
}

impl MarketInstruction {
    /// What the payload `p` decodes to under the tag `tag`: the variant of
    /// that tag, when `p` has the variant's declared length and each of its
    /// fields decodes; nothing for any other tag.
    pub open spec fn decode_payload(tag: nat, p: Seq<u8>) -> Option<MarketInstructionView> {
        if tag == 0 {
            tagged(InitializeMarketInstruction::decode(p), |v: InitializeMarketInstruction| MarketInstructionView::InitializeMarket(v))
        } else if tag == 1 {
            tagged(NewOrderInstructionV1::decode(p), |v: NewOrderV1View| MarketInstructionView::NewOrder(v))
        } else if tag == 2 {
            tagged(decode_uint(p, 2), |n: nat| MarketInstructionView::MatchOrders(n as u16))
        } else if tag == 3 {
            tagged(decode_uint(p, 2), |n: nat| MarketInstructionView::ConsumeEvents(n as u16))
        } else if tag == 4 {
            tagged(CancelOrderInstruction::decode(p), |v: CancelOrderView| MarketInstructionView::CancelOrder(v))
        } else if tag == 5 {
            if p.len() == 0 {
            Some(MarketInstructionView::SettleFunds)
        } else {
            None
        }
        } else if tag == 6 {
            tagged(decode_uint(p, 8), |n: nat| MarketInstructionView::CancelOrderByClientId(n as u64))
        } else if tag == 7 {
            if p.len() == 0 {
            Some(MarketInstructionView::DisableMarket)
        } else {
            None
        }
        } else if tag == 8 {
            if p.len() == 0 {
            Some(MarketInstructionView::SweepFees)
        } else {
            None
        }
        } else if tag == 9 {
            tagged(NewOrderInstructionV2::decode(p), |v: NewOrderV2View| MarketInstructionView::NewOrderV2(v))
        } else if tag == 10 {
            tagged(NewOrderInstructionV3::decode(p), |v: NewOrderV3View| MarketInstructionView::NewOrderV3(v))
        } else if tag == 11 {
            tagged(CancelOrderInstructionV2::decode(p), |v: CancelOrderInstructionV2| MarketInstructionView::CancelOrderV2(v))
        } else if tag == 12 {
            tagged(decode_uint(p, 8), |n: nat| MarketInstructionView::CancelOrderByClientIdV2(n as u64))
        } else if tag == 13 {
            tagged(SendTakeInstruction::decode(p), |v: SendTakeView| MarketInstructionView::SendTake(v))
        } else if tag == 14 {
            if p.len() == 0 {
            Some(MarketInstructionView::CloseOpenOrders)
        } else {
            None
        }
        } else if tag == 15 {
            if p.len() == 0 {
            Some(MarketInstructionView::InitOpenOrders)
        } else {
            None
        }
        } else if tag == 16 {
            tagged(decode_uint(p, 2), |n: nat| MarketInstructionView::Prune(n as u16))
        } else if tag == 17 {
            tagged(decode_uint(p, 2), |n: nat| MarketInstructionView::ConsumeEventsPermissioned(n as u16))
        } else {
            None
        }
    }

    /// What a byte string decodes to. Its first byte is skipped, the next
    /// four are the tag, and the rest is the payload; a string of fewer than
    /// five bytes decodes to nothing.
    pub open spec fn decode(b: Seq<u8>) -> Option<MarketInstructionView> {
        if b.len() < 5 {
            None
        } else {
            Self::decode_payload(field_value(b, 1, 4), b.subrange(5, b.len() as int))
        }
    }

    /// Decodes one instruction. The result is the instruction that `decode`
    /// gives for the bytes, and nothing where it gives none: on a string that
    /// is too short, a tag above 17, a payload that has not exactly the
    /// declared length, or a field that does not decode.
    pub fn unpack(input: &[u8]) -> (r: Option<MarketInstruction>)
        ensures
            agrees(r, Self::decode(input@)),
    {
        if input.len() < 5 {
            return None;
        }
        let tag = u32_at(input, 1);
        let data = slice_subrange(input, 5, input.len());
        match tag {
            0 => match InitializeMarketInstruction::unpack(data) {
                Some(payload) => Some(MarketInstruction::InitializeMarket(payload)),
                None => None,
            },
            1 => match NewOrderInstructionV1::unpack(data) {
                Some(payload) => Some(MarketInstruction::NewOrder(payload)),
                None => None,
            },
            2 => match le_u16(data) {
                Some(value) => Some(MarketInstruction::MatchOrders(value)),
                None => None,
            },
            3 => match le_u16(data) {
                Some(value) => Some(MarketInstruction::ConsumeEvents(value)),
                None => None,
            },
            4 => match CancelOrderInstruction::unpack(data) {
                Some(payload) => Some(MarketInstruction::CancelOrder(payload)),
                None => None,
            },
            5 => if data.len() == 0 {
                Some(MarketInstruction::SettleFunds)
            } else {
                None
            },
            6 => match le_u64(data) {
                Some(value) => Some(MarketInstruction::CancelOrderByClientId(value)),
                None => None,
            },
            7 => if data.len() == 0 {
                Some(MarketInstruction::DisableMarket)
            } else {
                None
            },
            8 => if data.len() == 0 {
                Some(MarketInstruction::SweepFees)
            } else {
                None
            },
            9 => match NewOrderInstructionV2::unpack(data) {
                Some(payload) => Some(MarketInstruction::NewOrderV2(payload)),
                None => None,
            },
            10 => match NewOrderInstructionV3::unpack(data) {
                Some(payload) => Some(MarketInstruction::NewOrderV3(payload)),
                None => None,
            },
            11 => match CancelOrderInstructionV2::unpack(data) {
                Some(payload) => Some(MarketInstruction::CancelOrderV2(payload)),
                None => None,
            },
            12 => match le_u64(data) {
                Some(value) => Some(MarketInstruction::CancelOrderByClientIdV2(value)),
                None => None,
            },
            13 => match SendTakeInstruction::unpack(data) {
                Some(payload) => Some(MarketInstruction::SendTake(payload)),
                None => None,
            },
            14 => if data.len() == 0 {
                Some(MarketInstruction::CloseOpenOrders)
            } else {
                None
            },
            15 => if data.len() == 0 {
                Some(MarketInstruction::InitOpenOrders)
            } else {
                None
            },
            16 => match le_u16(data) {
                Some(value) => Some(MarketInstruction::Prune(value)),
                None => None,
            },
            17 => match le_u16(data) {
                Some(value) => Some(MarketInstruction::ConsumeEventsPermissioned(value)),
                None => None,
            },
            _ => None,
        }
    }
}

} // verus!
