//! The types that most users of the library need.
pub use crate::common::defs::{
    Ccy, CtType, DataType, Date, DecodeError, Exch, ExecType, Inst, InstType, MgnMode, OptType,
    OrdState, OrdType, Side, TdMode,
};
pub use crate::common::msgs::{
    BalanceReport, CancelOrder, CancelReject, Depth, ExecutionReport, FundingRate, Level, Msg,
    NewOrder, Num, OpenInterest, PositionReport, Ticker, Timestamp, Trade,
};
