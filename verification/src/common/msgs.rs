//! The messages that flow between the connector and the trading logic:
//! market events, order commands, order events and account events.
use crate::common::defs::{Ccy, Exch, Inst, MgnMode, OrdState, OrdType, Side, TdMode};
use vstd::prelude::*;

verus! {

/// A 64-bit floating-point quantity, held by its IEEE-754 bit pattern.
/// Prices, sizes and rates are carried as they came and never computed on.
#[derive(Debug, Copy, Clone, PartialEq, Eq, Structural)]
pub struct Num {
    pub bits: u64,
}

impl Num {
    /// Positive zero.
    pub open spec fn spec_zero() -> Num {
        Num { bits: 0 }
    }

    /// The quantity with the bit pattern `bits`.
    pub fn from_bits(bits: u64) -> (r: Num)
        ensures
            r.bits == bits,
    {
        Num { bits }
    }

    /// Positive zero, the quantity whose bits are all clear.
    pub fn zero() -> (r: Num)
        ensures
            r == Num::spec_zero(),
    {
        Num { bits: 0 }
    }

    /// The bit pattern of the quantity.
    pub fn to_bits(&self) -> (r: u64)
        ensures
            r == self.bits,
    {
        self.bits
    }
}

/// A point in time: whole seconds since the Unix epoch, and nanoseconds
/// into that second.
#[derive(Debug, Copy, Clone, PartialEq, Eq, Structural)]
pub struct Timestamp {
    pub secs: i64,
    pub nanos: u32,
}

/// One price level of an order book: price, then size.
pub type Level = (Num, Num);

/// The best five price levels of each side of an order book.
#[derive(Debug, Copy, Clone, PartialEq, Eq)]
pub struct Depth {
    /// instrument id
    pub inst: Inst,
    /// exchange time
    pub exch_time: Timestamp,
    /// receive time
    pub recv_time: Timestamp,
    /// ask prices and sizes
    pub asks: [Level; 5],
    /// bid prices and sizes
    pub bids: [Level; 5],
}

/// What a `Depth` holds, with each side as a sequence of levels.
pub struct DepthView {
    pub inst: Inst,
    pub exch_time: Timestamp,
    pub recv_time: Timestamp,
    pub asks: Seq<Level>,
    pub bids: Seq<Level>,
}

impl View for Depth {
    type V = DepthView;

    open spec fn view(&self) -> DepthView {
        DepthView {
            inst: self.inst,
            exch_time: self.exch_time,
            recv_time: self.recv_time,
            asks: self.asks@,
            bids: self.bids@,
        }
    }
}

/// A trade that took place on the exchange.
#[derive(Debug, Copy, Clone, PartialEq, Eq, Structural)]
pub struct Trade {
    /// instrument id
    pub inst: Inst,
    /// exchange time
    pub exch_time: Timestamp,
    /// receive time
    pub recv_time: Timestamp,
    /// trade side
    pub side: Side,
    /// trade price
    pub px: Num,
    /// trade size
    pub sz: Num,
}

/// The last trade and the best bid and ask of an instrument.
#[derive(Debug, Copy, Clone, PartialEq, Eq, Structural)]
pub struct Ticker {
    /// instrument id
    pub inst: Inst,
    /// exchange time
    pub exch_time: Timestamp,
    /// receive time
    pub recv_time: Timestamp,
    /// last price
    pub last: Num,
    /// last size
    pub last_sz: Num,
    /// best ask price
    pub ask_px: Num,
    /// best ask size
    pub ask_sz: Num,
    /// best bid price
    pub bid_px: Num,
    /// best bid size
    pub bid_sz: Num,
}

/// The funding rate of a perpetual contract.
#[derive(Debug, Copy, Clone, PartialEq, Eq, Structural)]
pub struct FundingRate {
    /// instrument id
    pub inst: Inst,
    /// receive time
    pub recv_time: Timestamp,
    /// funding rate
    pub funding_rate: Num,
    /// next funding rate
    pub next_funding_rate: Num,
    /// funding time
    pub funding_time: Timestamp,
    /// next funding time
    pub next_funding_time: Timestamp,
}

/// The open interest of a contract.
#[derive(Debug, Copy, Clone, PartialEq, Eq, Structural)]
pub struct OpenInterest {
    /// instrument id
    pub inst: Inst,
    /// exchange time
    pub exch_time: Timestamp,
    /// receive time
    pub recv_time: Timestamp,
    /// open interest
    pub oi: Num,
    /// open interest in currency
    pub oi_ccy: Num,
}

/// A command to place an order.
#[derive(Debug, Copy, Clone, PartialEq, Eq, Structural)]
pub struct NewOrder {
    /// instrument id
    pub inst: Inst,
    /// client order id
    pub cl_ord_id: i64,
    /// order side
    pub side: Side,
    /// order type
    pub ord_type: OrdType,
    /// trade mode
    pub td_mode: TdMode,
    /// order price
    pub px: Num,
    /// order size
    pub sz: Num,
}

/// A command to cancel an order.
#[derive(Debug, Copy, Clone, PartialEq, Eq, Structural)]
pub struct CancelOrder {
    /// instrument id
    pub inst: Inst,
    /// client order id
    pub cl_ord_id: i64,
}

/// The state of an order after something happened to it.
#[derive(Debug, Copy, Clone, PartialEq, Eq, Structural)]
pub struct ExecutionReport {
    /// creation timestamp
    pub c_time: Timestamp,
    /// update timestamp
    pub u_time: Timestamp,
    /// instrument id
    pub inst: Inst,
    /// order id
    pub ord_id: i64,
    /// client order id
    pub cl_ord_id: i64,
    /// order price
    pub px: Num,
    /// order size
    pub sz: Num,
    /// order notional in USD
    pub notional_usd: Num,
    /// order type
    pub ord_type: OrdType,
    /// order side
    pub side: Side,
    /// last filled price
    pub fill_px: Num,
    /// last filled size
    pub fill_sz: Num,
    /// accumulated filled size
    pub acc_fill_sz: Num,
    /// average filled price
    pub avg_px: Num,
    /// order state
    pub state: OrdState,
    /// leverage, for margin, futures and swap instruments
    pub lever: Num,
    /// fee and rebate
    pub fee: Num,
}

impl ExecutionReport {
    /// The report that tells of the refusal of `order` at the time `ts`: the
    /// order's instrument, ids, price, size, type and side, the state
    /// `Rejected`, and zero for everything that an execution would have set.
    pub open spec fn rejection(order: NewOrder, ts: Timestamp) -> ExecutionReport {
        ExecutionReport {
            c_time: ts,
            u_time: ts,
            inst: order.inst,
            ord_id: 0,
            cl_ord_id: order.cl_ord_id,
            px: order.px,
            sz: order.sz,
            notional_usd: Num::spec_zero(),
            ord_type: order.ord_type,
            side: order.side,
            fill_px: Num::spec_zero(),
            fill_sz: Num::spec_zero(),
            acc_fill_sz: Num::spec_zero(),
            avg_px: Num::spec_zero(),
            state: OrdState::Rejected,
            lever: Num::spec_zero(),
            fee: Num::spec_zero(),
        }
    }

    /// Makes the report that tells of the refusal of `order` at `ts`.
    pub fn rejected(order: &NewOrder, ts: Timestamp) -> (r: ExecutionReport)
        ensures
            r == ExecutionReport::rejection(*order, ts),
    {
        ExecutionReport {
            c_time: ts,
            u_time: ts,
            inst: order.inst,
            ord_id: 0,
            cl_ord_id: order.cl_ord_id,
            px: order.px,
            sz: order.sz,
            notional_usd: Num::zero(),
            ord_type: order.ord_type,
            side: order.side,
            fill_px: Num::zero(),
            fill_sz: Num::zero(),
            acc_fill_sz: Num::zero(),
            avg_px: Num::zero(),
            state: OrdState::Rejected,
            lever: Num::zero(),
            fee: Num::zero(),
        }
    }
}

/// Notice that a cancellation was refused.
#[derive(Debug, Copy, Clone, PartialEq, Eq, Structural)]
pub struct CancelReject {
    /// update timestamp
    pub u_time: Timestamp,
    /// instrument id
    pub inst: Inst,
    /// client order id
    pub cl_ord_id: i64,
}

impl CancelReject {
    /// The notice that tells of the refusal of `cancel` at the time `ts`.
    pub open spec fn rejection(cancel: CancelOrder, ts: Timestamp) -> CancelReject {
        CancelReject { u_time: ts, inst: cancel.inst, cl_ord_id: cancel.cl_ord_id }
    }

    /// Makes the notice that tells of the refusal of `cancel` at `ts`.
    pub fn rejected(cancel: &CancelOrder, ts: Timestamp) -> (r: CancelReject)
        ensures
            r == CancelReject::rejection(*cancel, ts),
    {
        CancelReject { u_time: ts, inst: cancel.inst, cl_ord_id: cancel.cl_ord_id }
    }
}

/// The cash balance of one currency.
#[derive(Debug, Copy, Clone, PartialEq, Eq, Structural)]
pub struct BalanceReport {
    /// update time
    pub u_time: Timestamp,
    /// exchange
    pub exch: Exch,
    /// currency
    pub ccy: Ccy,
    /// cash balance
    pub cash_bal: Num,
}

/// The position held in one instrument.
#[derive(Debug, Copy, Clone, PartialEq, Eq, Structural)]
pub struct PositionReport {
    /// update time
    pub u_time: Timestamp,
    /// instrument id
    pub inst: Inst,
    /// margin mode
    pub mgn_mode: MgnMode,
    /// position
    pub pos: Num,
    /// currency used for margin
    pub ccy: Ccy,
    /// position currency, for margin instruments
    pub pos_ccy: Ccy,
    /// average open price
    pub avg_px: Num,
}

/// Anything that travels between the connector and the trading logic.
#[non_exhaustive]
#[derive(Debug, Copy, Clone, PartialEq, Eq)]
pub enum Msg {
    Depth(Depth),
    Trade(Trade),
    Ticker(Ticker),
    FundingRate(FundingRate),
    OpenInterest(OpenInterest),
    NewOrder(NewOrder),
    CancelOrder(CancelOrder),
    ExecutionReport(ExecutionReport),
    CancelReject(CancelReject),
    BalanceReport(BalanceReport),
    PositionReport(PositionReport),
    SigTerm,
}

/// What a `Msg` holds, with a depth held as its view.
pub enum MsgView {
    Depth(DepthView),
    Trade(Trade),
    Ticker(Ticker),
    FundingRate(FundingRate),
    OpenInterest(OpenInterest),
    NewOrder(NewOrder),
    CancelOrder(CancelOrder),
    ExecutionReport(ExecutionReport),
    CancelReject(CancelReject),
    BalanceReport(BalanceReport),
    PositionReport(PositionReport),
    SigTerm,
}

impl View for Msg {
    type V = MsgView;

    open spec fn view(&self) -> MsgView {
        match *self {
            Msg::Depth(m) => MsgView::Depth(m@),
            Msg::Trade(m) => MsgView::Trade(m),
            Msg::Ticker(m) => MsgView::Ticker(m),
            Msg::FundingRate(m) => MsgView::FundingRate(m),
            Msg::OpenInterest(m) => MsgView::OpenInterest(m),
            Msg::NewOrder(m) => MsgView::NewOrder(m),
            Msg::CancelOrder(m) => MsgView::CancelOrder(m),
            Msg::ExecutionReport(m) => MsgView::ExecutionReport(m),
            Msg::CancelReject(m) => MsgView::CancelReject(m),
            Msg::BalanceReport(m) => MsgView::BalanceReport(m),
            Msg::PositionReport(m) => MsgView::PositionReport(m),
            Msg::SigTerm => MsgView::SigTerm,
        }
    }
}

/// The views of a sequence of messages.
pub open spec fn msg_views(msgs: Seq<Msg>) -> Seq<MsgView> {
    Seq::new(msgs.len(), |i: int| msgs[i]@)
}

} // verus!
