//! The handler: it decodes an instruction, projects it into a record and
//! hands the record to the entity sink.

use vstd::prelude::*;
use crate::account::{account_texts, texts_of_keys, Pubkey};
use crate::instruction::{
    CancelOrderInstruction, CancelOrderInstructionV2, InitializeMarketInstruction,
    MarketInstruction, MarketInstructionView, NewOrderInstructionV1, NewOrderInstructionV2,
    NewOrderInstructionV3, SendTakeInstruction,
};
use crate::record::{build_record, entity_type_of, record};
use crate::sink::{EntityExt, EntitySink, SaveCall, SinkHandle};

verus! {

/// Whether `c` is a digit or a letter from `a` to `f`.
pub open spec fn is_lower_hex(c: char) -> bool {
    ('0' <= c && c <= '9') || ('a' <= c && c <= 'f')
}

/// Whether `id` has the form of a record identifier: 32 lower-case
/// hexadecimal digits.
pub open spec fn is_record_id(id: Seq<char>) -> bool {
    id.len() == 32 && forall|i: int| 0 <= i < id.len() ==> is_lower_hex(#[trigger] id[i])
}

/// Calls `Uuid::new_v4`, then `to_simple` and `to_string`, of the crate uuid:
/// a random identifier in its form without hyphens. The contract claims what
/// holds of every outcome: the text has 32 characters, each a lower-case
/// hexadecimal digit. Two calls may give different texts, and nothing here
/// says that they do. `new_v4` panics when the operating system hands out no
/// random bytes.
#[verifier::external_body]
fn fresh_id() -> (id: String)
    ensures
        is_record_id(id@),
{
    uuid::Uuid::new_v4().to_simple().to_string()
}

/// Whether `call` hands over the record of `instruction` for the account list
/// `accounts`: under the name of the instruction's variant, with the
/// attributes of the projection and some well-formed identifier.
pub open spec fn projects<E>(
    call: SaveCall<E>,
    instruction: MarketInstructionView,
    accounts: Seq<Pubkey>,
) -> bool {
    &&& call.entity_name == entity_type_of(instruction)
    &&& exists|id: Seq<char>|
        #[trigger] is_record_id(id) && call.record == record(
            instruction,
            texts_of_keys(accounts),
            id,
        )
}

/// Whether a sink went from the history `before` to the history `after` by
/// exactly one call, which handed over the record of `instruction` for
/// `accounts` and which the sink answered with `answer`.
pub open spec fn submitted<E>(
    before: Seq<SaveCall<E>>,
    after: Seq<SaveCall<E>>,
    instruction: MarketInstructionView,
    accounts: Seq<Pubkey>,
    answer: Result<(), E>,
) -> bool {
    &&& after.len() == before.len() + 1
    &&& after.drop_last() == before
    &&& projects(after.last(), instruction, accounts)
    &&& after.last().answer == answer
}

/// What `process` hands back for the answer of the sink: that a record was
/// saved, or the failure of the sink.
pub open spec fn saved_or<E>(answer: Result<(), E>) -> Result<bool, E> {
    match answer {
        Ok(_) => Ok(true),
        Err(failure) => Err(failure),
    }
}

/// Projects instructions into records and saves them.
pub struct Handler {}

impl Handler {
    /// Projects `instruction` with a fresh identifier and saves the record:
    /// one call of the sink, whose answer is handed back.
    fn submit<K: EntitySink>(
        &self,
        sink: &mut SinkHandle<K>,
        accounts: &Vec<Pubkey>,
        instruction: &MarketInstruction,
    ) -> (r: Result<(), K::Error>)
        ensures
            submitted(old(sink).calls(), final(sink).calls(), instruction@, accounts@, r),
    {
        let ghost before = sink.calls();
        let id = fresh_id();
        let ghost id_view = id@;
        let texts = account_texts(accounts);
        let entity = build_record(instruction, &texts, id);
        let r = entity.save(sink, instruction.entity_type());
        proof {
            assert(sink.calls().drop_last() =~= before);
            assert(is_record_id(id_view));
        }
        r
    }

    /// Decodes `input` and, where it holds an instruction, saves the record
    /// of that instruction for `accounts`. Where `input` decodes to nothing
    /// the sink is not called and the result is `Ok(false)`. Otherwise the
    /// sink is called once, with the record; the result is `Ok(true)` when
    /// the sink accepted it and the sink's failure when it did not.
    pub fn process<K: EntitySink>(
        &self,
        sink: &mut SinkHandle<K>,
        accounts: &Vec<Pubkey>,
        input: &[u8],
    ) -> (r: Result<bool, K::Error>)
        ensures
            match MarketInstruction::decode(input@) {
                Some(instruction) => {
                    &&& submitted(
                        old(sink).calls(),
                        final(sink).calls(),
                        instruction,
                        accounts@,
                        final(sink).calls().last().answer,
                    )
                    &&& r == saved_or(final(sink).calls().last().answer)
                },
                None => {
                    &&& final(sink).calls() == old(sink).calls()
                    &&& r == Ok::<bool, K::Error>(false)
                },
            },
    {
        match MarketInstruction::unpack(input) {
            Some(instruction) => {
                let answer = match instruction {
                    MarketInstruction::InitializeMarket(arg) => {
                        self.process_initialize_market(sink, accounts, arg)
                    },
                    MarketInstruction::NewOrder(arg) => {
                        self.process_new_order(sink, accounts, arg)
                    },
                    MarketInstruction::MatchOrders(arg) => {
                        self.process_match_orders(sink, accounts, arg)
                    },
                    MarketInstruction::ConsumeEvents(arg) => {
                        self.process_consume_events(sink, accounts, arg)
                    },
                    MarketInstruction::CancelOrder(arg) => {
                        self.process_cancel_order(sink, accounts, arg)
                    },
                    MarketInstruction::SettleFunds => self.process_settle_funds(sink, accounts),
                    MarketInstruction::CancelOrderByClientId(arg) => {
                        self.process_cancel_order_by_client_id(sink, accounts, arg)
                    },
                    MarketInstruction::DisableMarket => self.process_disable_market(sink, accounts),
                    MarketInstruction::SweepFees => self.process_sweep_fees(sink, accounts),
                    MarketInstruction::NewOrderV2(arg) => {
                        self.process_new_order_v2(sink, accounts, arg)
                    },
                    MarketInstruction::NewOrderV3(arg) => {
                        self.process_new_order_v3(sink, accounts, arg)
                    },
                    MarketInstruction::CancelOrderV2(arg) => {
                        self.process_cancel_order_v2(sink, accounts, arg)
                    },
                    MarketInstruction::CancelOrderByClientIdV2(arg) => {
                        self.process_cancel_order_by_client_id_v2(sink, accounts, arg)
                    },
                    MarketInstruction::SendTake(arg) => {
                        self.process_send_take(sink, accounts, arg)
                    },
                    MarketInstruction::CloseOpenOrders => self.process_close_open_orders(sink, accounts),
                    MarketInstruction::InitOpenOrders => self.process_init_open_orders(sink, accounts),
                    MarketInstruction::Prune(arg) => {
                        self.process_prune(sink, accounts, arg)
                    },
                    MarketInstruction::ConsumeEventsPermissioned(arg) => {
                        self.process_consume_events_permissioned(sink, accounts, arg)
                    },
                };
                match answer {
                    Ok(()) => Ok(true),
                    Err(failure) => Err(failure),
                }
            },
            None => Ok(false),
        }
    }

    /// Saves the record of a `InitializeMarket` instruction with the payload `arg` for
    /// `accounts`: one call of the sink, whose answer is handed back.
    pub fn process_initialize_market<K: EntitySink>(
        &self,
        sink: &mut SinkHandle<K>,
        accounts: &Vec<Pubkey>,
        arg: InitializeMarketInstruction,
    ) -> (r: Result<(), K::Error>)
        ensures
            submitted(
                old(sink).calls(),
                final(sink).calls(),
                MarketInstructionView::InitializeMarket(arg@),
                accounts@,
                r,
            ),
    {
        self.submit(sink, accounts, &MarketInstruction::InitializeMarket(arg))
    }

    /// Saves the record of a `NewOrder` instruction with the payload `arg` for
    /// `accounts`: one call of the sink, whose answer is handed back.
    pub fn process_new_order<K: EntitySink>(
        &self,
        sink: &mut SinkHandle<K>,
        accounts: &Vec<Pubkey>,
        arg: NewOrderInstructionV1,
    ) -> (r: Result<(), K::Error>)
        ensures
            submitted(
                old(sink).calls(),
                final(sink).calls(),
                MarketInstructionView::NewOrder(arg@),
                accounts@,
                r,
            ),
    {
        self.submit(sink, accounts, &MarketInstruction::NewOrder(arg))
    }

    /// Saves the record of a `MatchOrders` instruction with the payload `arg` for
    /// `accounts`: one call of the sink, whose answer is handed back.
    pub fn process_match_orders<K: EntitySink>(
        &self,
        sink: &mut SinkHandle<K>,
        accounts: &Vec<Pubkey>,
        arg: u16,
    ) -> (r: Result<(), K::Error>)
        ensures
            submitted(
                old(sink).calls(),
                final(sink).calls(),
                MarketInstructionView::MatchOrders(arg),
                accounts@,
                r,
            ),
    {
        self.submit(sink, accounts, &MarketInstruction::MatchOrders(arg))
    }

    /// Saves the record of a `ConsumeEvents` instruction with the payload `arg` for
    /// `accounts`: one call of the sink, whose answer is handed back.
    pub fn process_consume_events<K: EntitySink>(
        &self,
        sink: &mut SinkHandle<K>,
        accounts: &Vec<Pubkey>,
        arg: u16,
    ) -> (r: Result<(), K::Error>)
        ensures
            submitted(
                old(sink).calls(),
                final(sink).calls(),
                MarketInstructionView::ConsumeEvents(arg),
                accounts@,
                r,
            ),
    {
        self.submit(sink, accounts, &MarketInstruction::ConsumeEvents(arg))
    }

    /// Saves the record of a `CancelOrder` instruction with the payload `arg` for
    /// `accounts`: one call of the sink, whose answer is handed back.
    pub fn process_cancel_order<K: EntitySink>(
        &self,
        sink: &mut SinkHandle<K>,
        accounts: &Vec<Pubkey>,
        arg: CancelOrderInstruction,
    ) -> (r: Result<(), K::Error>)
        ensures
            submitted(
                old(sink).calls(),
                final(sink).calls(),
                MarketInstructionView::CancelOrder(arg@),
                accounts@,
                r,
            ),
    {
        self.submit(sink, accounts, &MarketInstruction::CancelOrder(arg))
    }

    /// Saves the record of a `SettleFunds` instruction for `accounts`: one call of
    /// the sink, whose answer is handed back.
    pub fn process_settle_funds<K: EntitySink>(
        &self,
        sink: &mut SinkHandle<K>,
        accounts: &Vec<Pubkey>,
    ) -> (r: Result<(), K::Error>)
        ensures
            submitted(
                old(sink).calls(),
                final(sink).calls(),
                MarketInstructionView::SettleFunds,
                accounts@,
                r,
            ),
    {
        self.submit(sink, accounts, &MarketInstruction::SettleFunds)
    }

    /// Saves the record of a `CancelOrderByClientId` instruction with the payload `arg` for
    /// `accounts`: one call of the sink, whose answer is handed back.
    pub fn process_cancel_order_by_client_id<K: EntitySink>(
        &self,
        sink: &mut SinkHandle<K>,
        accounts: &Vec<Pubkey>,
        arg: u64,
    ) -> (r: Result<(), K::Error>)
        ensures
            submitted(
                old(sink).calls(),
                final(sink).calls(),
                MarketInstructionView::CancelOrderByClientId(arg),
                accounts@,
                r,
            ),
    {
        self.submit(sink, accounts, &MarketInstruction::CancelOrderByClientId(arg))
    }

    /// Saves the record of a `DisableMarket` instruction for `accounts`: one call of
    /// the sink, whose answer is handed back.
    pub fn process_disable_market<K: EntitySink>(
        &self,
        sink: &mut SinkHandle<K>,
        accounts: &Vec<Pubkey>,
    ) -> (r: Result<(), K::Error>)
        ensures
            submitted(
                old(sink).calls(),
                final(sink).calls(),
                MarketInstructionView::DisableMarket,
                accounts@,
                r,
            ),
    {
        self.submit(sink, accounts, &MarketInstruction::DisableMarket)
    }

    /// Saves the record of a `SweepFees` instruction for `accounts`: one call of
    /// the sink, whose answer is handed back.
    pub fn process_sweep_fees<K: EntitySink>(
        &self,
        sink: &mut SinkHandle<K>,
        accounts: &Vec<Pubkey>,
    ) -> (r: Result<(), K::Error>)
        ensures
            submitted(
                old(sink).calls(),
                final(sink).calls(),
                MarketInstructionView::SweepFees,
                accounts@,
                r,
            ),
    {
        self.submit(sink, accounts, &MarketInstruction::SweepFees)
    }

    /// Saves the record of a `NewOrderV2` instruction with the payload `arg` for
    /// `accounts`: one call of the sink, whose answer is handed back.
    pub fn process_new_order_v2<K: EntitySink>(
        &self,
        sink: &mut SinkHandle<K>,
        accounts: &Vec<Pubkey>,
        arg: NewOrderInstructionV2,
    ) -> (r: Result<(), K::Error>)
        ensures
            submitted(
                old(sink).calls(),
                final(sink).calls(),
                MarketInstructionView::NewOrderV2(arg@),
                accounts@,
                r,
            ),
    {
        self.submit(sink, accounts, &MarketInstruction::NewOrderV2(arg))
    }

    /// Saves the record of a `NewOrderV3` instruction with the payload `arg` for
    /// `accounts`: one call of the sink, whose answer is handed back.
    pub fn process_new_order_v3<K: EntitySink>(
        &self,
        sink: &mut SinkHandle<K>,
        accounts: &Vec<Pubkey>,
        arg: NewOrderInstructionV3,
    ) -> (r: Result<(), K::Error>)
        ensures
            submitted(
                old(sink).calls(),
                final(sink).calls(),
                MarketInstructionView::NewOrderV3(arg@),
                accounts@,
                r,
            ),
    {
        self.submit(sink, accounts, &MarketInstruction::NewOrderV3(arg))
    }

    /// Saves the record of a `CancelOrderV2` instruction with the payload `arg` for
    /// `accounts`: one call of the sink, whose answer is handed back.
    pub fn process_cancel_order_v2<K: EntitySink>(
        &self,
        sink: &mut SinkHandle<K>,
        accounts: &Vec<Pubkey>,
        arg: CancelOrderInstructionV2,
    ) -> (r: Result<(), K::Error>)
        ensures
            submitted(
                old(sink).calls(),
                final(sink).calls(),
                MarketInstructionView::CancelOrderV2(arg@),
                accounts@,
                r,
            ),
    {
        self.submit(sink, accounts, &MarketInstruction::CancelOrderV2(arg))
    }

    /// Saves the record of a `CancelOrderByClientIdV2` instruction with the payload `arg` for
    /// `accounts`: one call of the sink, whose answer is handed back.
    pub fn process_cancel_order_by_client_id_v2<K: EntitySink>(
        &self,
        sink: &mut SinkHandle<K>,
        accounts: &Vec<Pubkey>,
        arg: u64,
    ) -> (r: Result<(), K::Error>)
        ensures
            submitted(
                old(sink).calls(),
                final(sink).calls(),
                MarketInstructionView::CancelOrderByClientIdV2(arg),
                accounts@,
                r,
            ),
    {
        self.submit(sink, accounts, &MarketInstruction::CancelOrderByClientIdV2(arg))
    }

    /// Saves the record of a `SendTake` instruction with the payload `arg` for
    /// `accounts`: one call of the sink, whose answer is handed back.
    pub fn process_send_take<K: EntitySink>(
        &self,
        sink: &mut SinkHandle<K>,
        accounts: &Vec<Pubkey>,
        arg: SendTakeInstruction,
    ) -> (r: Result<(), K::Error>)
        ensures
            submitted(
                old(sink).calls(),
                final(sink).calls(),
                MarketInstructionView::SendTake(arg@),
                accounts@,
                r,
            ),
    {
        self.submit(sink, accounts, &MarketInstruction::SendTake(arg))
    }

    /// Saves the record of a `CloseOpenOrders` instruction for `accounts`: one call of
    /// the sink, whose answer is handed back.
    pub fn process_close_open_orders<K: EntitySink>(
        &self,
        sink: &mut SinkHandle<K>,
        accounts: &Vec<Pubkey>,
    ) -> (r: Result<(), K::Error>)
        ensures
            submitted(
                old(sink).calls(),
                final(sink).calls(),
                MarketInstructionView::CloseOpenOrders,
                accounts@,
                r,
            ),
    {
        self.submit(sink, accounts, &MarketInstruction::CloseOpenOrders)
    }

    /// Saves the record of a `InitOpenOrders` instruction for `accounts`: one call of
    /// the sink, whose answer is handed back.
    pub fn process_init_open_orders<K: EntitySink>(
        &self,
        sink: &mut SinkHandle<K>,
        accounts: &Vec<Pubkey>,
    ) -> (r: Result<(), K::Error>)
        ensures
            submitted(
                old(sink).calls(),
                final(sink).calls(),
                MarketInstructionView::InitOpenOrders,
                accounts@,
                r,
            ),
    {
        self.submit(sink, accounts, &MarketInstruction::InitOpenOrders)
    }

    /// Saves the record of a `Prune` instruction with the payload `arg` for
    /// `accounts`: one call of the sink, whose answer is handed back.
    pub fn process_prune<K: EntitySink>(
        &self,
        sink: &mut SinkHandle<K>,
        accounts: &Vec<Pubkey>,
        arg: u16,
    ) -> (r: Result<(), K::Error>)
        ensures
            submitted(
                old(sink).calls(),
                final(sink).calls(),
                MarketInstructionView::Prune(arg),
                accounts@,
                r,
            ),
    {
        self.submit(sink, accounts, &MarketInstruction::Prune(arg))
    }

    /// Saves the record of a `ConsumeEventsPermissioned` instruction with the payload `arg` for
    /// `accounts`: one call of the sink, whose answer is handed back.
    pub fn process_consume_events_permissioned<K: EntitySink>(
        &self,
        sink: &mut SinkHandle<K>,
        accounts: &Vec<Pubkey>,
        arg: u16,
    ) -> (r: Result<(), K::Error>)
        ensures
            submitted(
                old(sink).calls(),
                final(sink).calls(),
                MarketInstructionView::ConsumeEventsPermissioned(arg),
                accounts@,
                r,
            ),
    {
        self.submit(sink, accounts, &MarketInstruction::ConsumeEventsPermissioned(arg))
    }
}

} // verus!
