//! Reading and writing the exchange's own notation: instrument ids, the
//! names of order attributes, times, and the data records of its frames.
use crate::api::okx::value::Value;
use crate::common::defs::{
    format_yymmdd, parse_date_spec, parse_yymmdd, Ccy, DecodeError, Exch, Inst, InstType, MgnMode,
    OrdState, OrdType, Side, TdMode,
};
use crate::common::msgs::{
    BalanceReport, Depth, DepthView, ExecutionReport, FundingRate, Level, Num, OpenInterest,
    PositionReport, Ticker, Timestamp, Trade,
};
use crate::text::{
    chars_eq_str, chars_of, lemma_parse_to_decimal, lemma_split_five, lemma_split_three,
    lemma_split_two, lemma_to_decimal_free_of, parse_i64, parse_i64_spec, push_i64, split,
    split_chars, str_eq, to_decimal,
};
use vstd::prelude::*;
use vstd::string::StringExecFns;

verus! {

/// The exchange's id of an instrument: base and quote currency, then
/// nothing for spot and margin, `SWAP` for a swap, the expiry date for a
/// future, and expiry date, strike and option type for an option, with a
/// hyphen between them.
pub open spec fn wire_encode(inst: Inst) -> Seq<char> {
    let pair = inst.base_ccy.name() + seq!['-'] + inst.quote_ccy.name();
    match inst.inst_type {
        InstType::Spot => pair,
        InstType::Margin => pair,
        InstType::Swap => pair + seq!['-'] + "SWAP"@,
        InstType::Futures(d) => pair + seq!['-'] + d.yymmdd(),
        InstType::Options(d, strike, t) => pair + seq!['-'] + d.yymmdd() + seq!['-'] + to_decimal(
            strike as int,
        ) + seq!['-'] + t.name(),
    }
}

/// The instrument type that the pieces of an id after the currencies write.
pub open spec fn wire_type(p: Seq<Seq<char>>) -> Result<InstType, DecodeError> {
    if p.len() == 2 {
        Ok(InstType::Spot)
    } else if p.len() == 3 {
        if p[2] == "SWAP"@ {
            Ok(InstType::Swap)
        } else {
            InstType::futures_of(parse_date_spec(p[2]))
        }
    } else {
        InstType::decode_option(p[2], p[3], p[4])
    }
}

/// The instrument, traded on this exchange, that the id `s` writes. An id
/// has two, three or five pieces; the currencies are read first, then the
/// type.
pub open spec fn wire_decode(s: Seq<char>) -> Result<Inst, DecodeError> {
    let p = split(s, '-');
    if p.len() != 2 && p.len() != 3 && p.len() != 5 {
        Err(DecodeError::Instrument)
    } else {
        match Ccy::named(p[0]) {
            None => Err(DecodeError::BaseCurrency),
            Some(base_ccy) => match Ccy::named(p[1]) {
                None => Err(DecodeError::QuoteCurrency),
                Some(quote_ccy) => match wire_type(p) {
                    Err(e) => Err(e),
                    Ok(inst_type) => Ok(
                        Inst { exch: Exch::Okx, base_ccy, quote_ccy, inst_type },
                    ),
                },
            },
        }
    }
}

/// Reads the exchange's id of an instrument.
pub fn str_to_inst(s: &str) -> (r: Result<Inst, DecodeError>)
    ensures
        r == wire_decode(s@),
{
    let chars = chars_of(s);
    let p = split_chars(&chars, '-');
    let n = p.len();
    if n != 2 && n != 3 && n != 5 {
        return Err(DecodeError::Instrument);
    }
    let base_ccy = match Ccy::from_chars(&p[0]) {
        Some(c) => c,
        None => { return Err(DecodeError::BaseCurrency); },
    };
    let quote_ccy = match Ccy::from_chars(&p[1]) {
        Some(c) => c,
        None => { return Err(DecodeError::QuoteCurrency); },
    };
    let inst_type = if n == 2 {
        Ok(InstType::Spot)
    } else if n == 3 {
        if chars_eq_str(&p[2], "SWAP") {
            Ok(InstType::Swap)
        } else {
            InstType::futures_from(parse_yymmdd(&p[2]))
        }
    } else {
        InstType::option_from_chars(&p[2], &p[3], &p[4])
    };
    match inst_type {
        Ok(inst_type) => Ok(Inst { exch: Exch::Okx, base_ccy, quote_ccy, inst_type }),
        Err(e) => Err(e),
    }
}

/// Writes the exchange's id of an instrument.
pub fn inst_to_str(inst: &Inst) -> (r: String)
    ensures
        r@ == wire_encode(*inst),
{
    proof {
        reveal_strlit("-");
    }
    let mut out = String::from_str(inst.base_ccy.to_str());
    out.append("-");
    out.append(inst.quote_ccy.to_str());
    match &inst.inst_type {
        InstType::Spot => {},
        InstType::Margin => {},
        InstType::Swap => {
            out.append("-");
            out.append("SWAP");
        },
        InstType::Futures(d) => {
            out.append("-");
            let date = format_yymmdd(d);
            out.append(date.as_str());
        },
        InstType::Options(d, strike, t) => {
            out.append("-");
            let date = format_yymmdd(d);
            out.append(date.as_str());
            out.append("-");
            push_i64(*strike, &mut out);
            out.append("-");
            out.append(t.to_str());
        },
    }
    out
}

/// Whether the exchange's id of an instrument can be read back: the
/// instrument is traded on this exchange, it is no margin instrument (whose
/// id is that of the spot instrument), and its type can be read back.
pub open spec fn wire_round_trips(inst: Inst) -> bool {
    &&& inst.exch == Exch::Okx
    &&& inst.inst_type != InstType::Margin
    &&& inst.inst_type.round_trips()
}

/// The exchange's id of an instrument splits into the names of its parts.
proof fn lemma_wire_pieces(inst: Inst)
    requires
        wire_round_trips(inst),
    ensures
        split(wire_encode(inst), '-') == match inst.inst_type {
            InstType::Spot => seq![inst.base_ccy.name(), inst.quote_ccy.name()],
            InstType::Margin => seq![inst.base_ccy.name(), inst.quote_ccy.name()],
            InstType::Swap => seq![inst.base_ccy.name(), inst.quote_ccy.name(), "SWAP"@],
            InstType::Futures(d) => seq![inst.base_ccy.name(), inst.quote_ccy.name(), d.yymmdd()],
            InstType::Options(d, strike, t) => seq![
                inst.base_ccy.name(),
                inst.quote_ccy.name(),
                d.yymmdd(),
                to_decimal(strike as int),
                t.name(),
            ],
        },
{
    let b = inst.base_ccy.name();
    let q = inst.quote_ccy.name();
    inst.base_ccy.lemma_name();
    inst.quote_ccy.lemma_name();
    match inst.inst_type {
        InstType::Spot => {
            lemma_split_two(b, q, '-');
        },
        InstType::Margin => {},
        InstType::Swap => {
            reveal_strlit("SWAP");
            lemma_split_three(b, q, "SWAP"@, '-');
        },
        InstType::Futures(d) => {
            lemma_split_three(b, q, d.yymmdd(), '-');
        },
        InstType::Options(d, strike, t) => {
            lemma_to_decimal_free_of(strike as int, '-');
            t.lemma_name();
            lemma_split_five(b, q, d.yymmdd(), to_decimal(strike as int), t.name(), '-');
        },
    }
}

/// Reading the exchange's id of an instrument gives the instrument back,
/// for every instrument of this exchange that is no margin instrument, has
/// an expiry date from 1970 to 2069 and a strike that is not negative.
pub proof fn lemma_wire_decode_encode(inst: Inst)
    requires
        wire_round_trips(inst),
    ensures
        wire_decode(wire_encode(inst)) == Ok::<Inst, DecodeError>(inst),
{
    lemma_wire_pieces(inst);
    assert(Ccy::named(inst.base_ccy.name()) == Some(inst.base_ccy)) by {
        inst.base_ccy.lemma_name();
    }
    assert(Ccy::named(inst.quote_ccy.name()) == Some(inst.quote_ccy)) by {
        inst.quote_ccy.lemma_name();
    }
    let p = split(wire_encode(inst), '-');
    assert(wire_type(p) == Ok::<InstType, DecodeError>(inst.inst_type)) by {
        match inst.inst_type {
            InstType::Futures(d) => {
                d.lemma_yymmdd_round_trip();
                reveal_strlit("SWAP");
            },
            InstType::Options(d, strike, t) => {
                d.lemma_yymmdd_round_trip();
                lemma_parse_to_decimal(strike as int);
                t.lemma_name();
            },
            _ => {},
        }
    }
}

/// The exchange's name of a trade mode.
pub open spec fn td_mode_name(td_mode: TdMode) -> Seq<char> {
    match td_mode {
        TdMode::Cross => "cross"@,
        TdMode::Isolated => "isolated"@,
        TdMode::Cash => "cash"@,
    }
}

/// The exchange's name of an order side.
pub open spec fn side_name(side: Side) -> Seq<char> {
    match side {
        Side::Buy => "buy"@,
        Side::Sell => "sell"@,
    }
}

/// The exchange's name of an order type.
pub open spec fn ord_type_name(ord_type: OrdType) -> Seq<char> {
    match ord_type {
        OrdType::Market => "market"@,
        OrdType::Limit => "limit"@,
        OrdType::PostOnly => "post_only"@,
        OrdType::Fok => "fok"@,
        OrdType::Ioc => "ioc"@,
    }
}

/// The margin mode that the exchange calls `s`.
pub open spec fn mgn_mode_named(s: Seq<char>) -> Option<MgnMode> {
    if s == "cross"@ {
        Some(MgnMode::Cross)
    } else if s == "isolated"@ {
        Some(MgnMode::Isolated)
    } else if s == "cash"@ {
        Some(MgnMode::Cash)
    } else {
        None
    }
}

/// The order type that the exchange calls `s`.
pub open spec fn ord_type_named(s: Seq<char>) -> Option<OrdType> {
    if s == "market"@ {
        Some(OrdType::Market)
    } else if s == "limit"@ {
        Some(OrdType::Limit)
    } else if s == "post_only"@ {
        Some(OrdType::PostOnly)
    } else if s == "fok"@ {
        Some(OrdType::Fok)
    } else if s == "ioc"@ {
        Some(OrdType::Ioc)
    } else {
        None
    }
}

/// The order side that the exchange calls `s`.
pub open spec fn side_named(s: Seq<char>) -> Option<Side> {
    if s == "buy"@ {
        Some(Side::Buy)
    } else if s == "sell"@ {
        Some(Side::Sell)
    } else {
        None
    }
}

/// The order state that the exchange calls `s`.
pub open spec fn ord_state_named(s: Seq<char>) -> Option<OrdState> {
    if s == "live"@ {
        Some(OrdState::Live)
    } else if s == "filled"@ {
        Some(OrdState::Filled)
    } else if s == "canceled"@ {
        Some(OrdState::Canceled)
    } else if s == "partially_filled"@ {
        Some(OrdState::PartiallyFilled)
    } else {
        None
    }
}

/// What was found, or `e` where nothing was.
pub open spec fn found_or<T>(found: Option<T>, e: DecodeError) -> Result<T, DecodeError> {
    match found {
        Some(x) => Ok(x),
        None => Err(e),
    }
}

/// Reads the exchange's name of a margin mode.
pub fn str_to_mgn_mode(s: &str) -> (r: Result<MgnMode, DecodeError>)
    ensures
        r == found_or(mgn_mode_named(s@), DecodeError::MarginMode),
{
    if str_eq(s, "cross") {
        Ok(MgnMode::Cross)
    } else if str_eq(s, "isolated") {
        Ok(MgnMode::Isolated)
    } else if str_eq(s, "cash") {
        Ok(MgnMode::Cash)
    } else {
        Err(DecodeError::MarginMode)
    }
}

/// Reads the exchange's name of an order type.
pub fn str_to_ord_type(s: &str) -> (r: Result<OrdType, DecodeError>)
    ensures
        r == found_or(ord_type_named(s@), DecodeError::OrderType),
{
    if str_eq(s, "market") {
        Ok(OrdType::Market)
    } else if str_eq(s, "limit") {
        Ok(OrdType::Limit)
    } else if str_eq(s, "post_only") {
        Ok(OrdType::PostOnly)
    } else if str_eq(s, "fok") {
        Ok(OrdType::Fok)
    } else if str_eq(s, "ioc") {
        Ok(OrdType::Ioc)
    } else {
        Err(DecodeError::OrderType)
    }
}

/// Reads the exchange's name of an order side.
pub fn str_to_side(s: &str) -> (r: Result<Side, DecodeError>)
    ensures
        r == found_or(side_named(s@), DecodeError::Side),
{
    if str_eq(s, "buy") {
        Ok(Side::Buy)
    } else if str_eq(s, "sell") {
        Ok(Side::Sell)
    } else {
        Err(DecodeError::Side)
    }
}

/// Reads the exchange's name of an order state.
pub fn str_to_ord_state(s: &str) -> (r: Result<OrdState, DecodeError>)
    ensures
        r == found_or(ord_state_named(s@), DecodeError::OrderState),
{
    if str_eq(s, "live") {
        Ok(OrdState::Live)
    } else if str_eq(s, "filled") {
        Ok(OrdState::Filled)
    } else if str_eq(s, "canceled") {
        Ok(OrdState::Canceled)
    } else if str_eq(s, "partially_filled") {
        Ok(OrdState::PartiallyFilled)
    } else {
        Err(DecodeError::OrderState)
    }
}

/// The exchange's name of a trade mode.
pub fn td_mode_to_str(td_mode: &TdMode) -> (r: &'static str)
    ensures
        r@ == td_mode_name(*td_mode),
{
    match td_mode {
        TdMode::Cross => "cross",
        TdMode::Isolated => "isolated",
        TdMode::Cash => "cash",
    }
}

/// The exchange's name of an order side.
pub fn side_to_str(side: &Side) -> (r: &'static str)
    ensures
        r@ == side_name(*side),
{
    match side {
        Side::Buy => "buy",
        Side::Sell => "sell",
    }
}

/// The exchange's name of an order type.
pub fn ord_type_to_str(ord_type: &OrdType) -> (r: &'static str)
    ensures
        r@ == ord_type_name(*ord_type),
{
    match ord_type {
        OrdType::Market => "market",
        OrdType::Limit => "limit",
        OrdType::PostOnly => "post_only",
        OrdType::Fok => "fok",
        OrdType::Ioc => "ioc",
    }
}

/// An order side is read back from its name.
pub proof fn lemma_side_name(side: Side)
    ensures
        side_named(side_name(side)) == Some(side),
{
    reveal_strlit("buy");
    reveal_strlit("sell");
    assert("buy"@ =~= seq!['b', 'u', 'y']);
}

/// An order type is read back from its name.
pub proof fn lemma_ord_type_name(ord_type: OrdType)
    ensures
        ord_type_named(ord_type_name(ord_type)) == Some(ord_type),
{
    reveal_strlit("market");
    reveal_strlit("limit");
    reveal_strlit("post_only");
    reveal_strlit("fok");
    reveal_strlit("ioc");
    assert("market"@ =~= seq!['m', 'a', 'r', 'k', 'e', 't']);
    assert("limit"@ =~= seq!['l', 'i', 'm', 'i', 't']);
    assert("post_only"@ =~= seq!['p', 'o', 's', 't', '_', 'o', 'n', 'l', 'y']);
    assert("fok"@ =~= seq!['f', 'o', 'k']);
}

/// The first day that a time can fall on, counted from the day of the Unix
/// epoch: the first of January of the year -262143.
pub const MIN_EPOCH_DAY: i64 = -96_465_292;

/// The last day that a time can fall on, counted from the day of the Unix
/// epoch: the last of December of the year 262142.
pub const MAX_EPOCH_DAY: i64 = 95_026_236;

/// The milliseconds of a day.
pub const DAY_MILLIS: i64 = 86_400_000;

/// The time that lies `millis` milliseconds after the Unix epoch: its whole
/// seconds, rounded down, and the rest in nanoseconds. There is none where
/// its day lies outside the range of days.
pub open spec fn time_of_millis(millis: int) -> Option<Timestamp> {
    if MIN_EPOCH_DAY <= millis / (DAY_MILLIS as int) <= MAX_EPOCH_DAY {
        Some(
            Timestamp { secs: (millis / 1000) as i64, nanos: ((millis % 1000) * 1_000_000) as u32 },
        )
    } else {
        None
    }
}

/// The time that the decimal text `s` gives in milliseconds since the Unix
/// epoch. A text that writes no integer stands for the epoch.
pub open spec fn datetime_of(s: Seq<char>) -> Result<Timestamp, DecodeError> {
    let millis = match parse_i64_spec(s) {
        Some(m) => m as int,
        None => 0,
    };
    found_or(time_of_millis(millis), DecodeError::Time)
}

/// Makes a time of milliseconds since the Unix epoch with chrono's
/// `DateTime::from_timestamp_millis`. Chrono divides the number, rounding
/// down, into whole seconds and a rest, which it keeps in nanoseconds, and
/// into whole days. It gives `None` where the day lies before the first of
/// January of the year -262143 or after the last of December of the year
/// 262142, which are the first and the last of its dates.
#[verifier::external_body]
fn timestamp_from_millis(millis: i64) -> (r: Option<Timestamp>)
    ensures
        r == time_of_millis(millis as int),
{
    match chrono::DateTime::from_timestamp_millis(millis) {
        Some(t) => Some(Timestamp { secs: t.timestamp(), nanos: t.timestamp_subsec_nanos() }),
        None => None,
    }
}

/// The time that was made, or the error for a time out of range.
pub fn time_or_error(time: Option<Timestamp>) -> (r: Result<Timestamp, DecodeError>)
    ensures
        r == found_or(time, DecodeError::Time),
{
    match time {
        Some(t) => Ok(t),
        None => Err(DecodeError::Time),
    }
}

/// Reads a time given in milliseconds since the Unix epoch.
pub fn str_to_naive_datetime(s: &str) -> (r: Result<Timestamp, DecodeError>)
    ensures
        r == datetime_of(s@),
{
    let chars = chars_of(s);
    let millis = match parse_i64(&chars) {
        Some(m) => m,
        None => 0,
    };
    time_or_error(timestamp_from_millis(millis))
}

/// The text that a record holds under `name`.
pub open spec fn text_field(v: Value, name: Seq<char>) -> Result<Seq<char>, DecodeError> {
    found_or(v.text_at(name), DecodeError::Field)
}

/// The number that a record holds under `name`, written as a text.
pub open spec fn num_field(v: Value, name: Seq<char>) -> Result<Num, DecodeError> {
    match v.num_at(name) {
        None => Err(DecodeError::Field),
        Some(None) => Err(DecodeError::Number),
        Some(Some(n)) => Ok(n),
    }
}

/// The integer that a record holds under `name`, written as a text.
pub open spec fn int_field(v: Value, name: Seq<char>) -> Result<i64, DecodeError> {
    match v.text_at(name) {
        None => Err(DecodeError::Field),
        Some(s) => found_or(parse_i64_spec(s), DecodeError::Integer),
    }
}

/// The instrument whose id a record holds under `name`.
pub open spec fn inst_field(v: Value, name: Seq<char>) -> Result<Inst, DecodeError> {
    match v.text_at(name) {
        None => Err(DecodeError::Field),
        Some(s) => wire_decode(s),
    }
}

/// The time that a record holds under `name`, in milliseconds.
pub open spec fn time_field(v: Value, name: Seq<char>) -> Result<Timestamp, DecodeError> {
    match v.text_at(name) {
        None => Err(DecodeError::Field),
        Some(s) => datetime_of(s),
    }
}

/// The order side that a record holds under `name`.
pub open spec fn side_field(v: Value, name: Seq<char>) -> Result<Side, DecodeError> {
    match v.text_at(name) {
        None => Err(DecodeError::Field),
        Some(s) => found_or(side_named(s), DecodeError::Side),
    }
}

/// The order type that a record holds under `name`.
pub open spec fn ord_type_field(v: Value, name: Seq<char>) -> Result<OrdType, DecodeError> {
    match v.text_at(name) {
        None => Err(DecodeError::Field),
        Some(s) => found_or(ord_type_named(s), DecodeError::OrderType),
    }
}

/// The order state that a record holds under `name`.
pub open spec fn ord_state_field(v: Value, name: Seq<char>) -> Result<OrdState, DecodeError> {
    match v.text_at(name) {
        None => Err(DecodeError::Field),
        Some(s) => found_or(ord_state_named(s), DecodeError::OrderState),
    }
}

/// The margin mode that a record holds under `name`.
pub open spec fn mgn_mode_field(v: Value, name: Seq<char>) -> Result<MgnMode, DecodeError> {
    match v.text_at(name) {
        None => Err(DecodeError::Field),
        Some(s) => found_or(mgn_mode_named(s), DecodeError::MarginMode),
    }
}

/// The currency whose code a record holds under `name`.
pub open spec fn ccy_field(v: Value, name: Seq<char>) -> Result<Ccy, DecodeError> {
    match v.text_at(name) {
        None => Err(DecodeError::Field),
        Some(s) => found_or(Ccy::named(s), DecodeError::Currency),
    }
}

/// Reads the number held under `name`.
pub fn read_num(v: &Value, name: &str) -> (r: Result<Num, DecodeError>)
    ensures
        r == num_field(*v, name@),
{
    match v.get_num(name) {
        None => Err(DecodeError::Field),
        Some(None) => Err(DecodeError::Number),
        Some(Some(n)) => Ok(n),
    }
}

/// Reads the integer held under `name`.
pub fn read_int(v: &Value, name: &str) -> (r: Result<i64, DecodeError>)
    ensures
        r == int_field(*v, name@),
{
    match v.get_text(name) {
        None => Err(DecodeError::Field),
        Some(s) => {
            let chars = chars_of(s);
            match parse_i64(&chars) {
                Some(n) => Ok(n),
                None => Err(DecodeError::Integer),
            }
        },
    }
}

/// Reads the instrument held under `name`.
pub fn read_inst(v: &Value, name: &str) -> (r: Result<Inst, DecodeError>)
    ensures
        r == inst_field(*v, name@),
{
    match v.get_text(name) {
        None => Err(DecodeError::Field),
        Some(s) => str_to_inst(s),
    }
}

/// Reads the time held under `name`.
pub fn read_time(v: &Value, name: &str) -> (r: Result<Timestamp, DecodeError>)
    ensures
        r == time_field(*v, name@),
{
    match v.get_text(name) {
        None => Err(DecodeError::Field),
        Some(s) => str_to_naive_datetime(s),
    }
}

/// Reads the order side held under `name`.
pub fn read_side(v: &Value, name: &str) -> (r: Result<Side, DecodeError>)
    ensures
        r == side_field(*v, name@),
{
    match v.get_text(name) {
        None => Err(DecodeError::Field),
        Some(s) => str_to_side(s),
    }
}

/// Reads the order type held under `name`.
pub fn read_ord_type(v: &Value, name: &str) -> (r: Result<OrdType, DecodeError>)
    ensures
        r == ord_type_field(*v, name@),
{
    match v.get_text(name) {
        None => Err(DecodeError::Field),
        Some(s) => str_to_ord_type(s),
    }
}

/// Reads the order state held under `name`.
pub fn read_ord_state(v: &Value, name: &str) -> (r: Result<OrdState, DecodeError>)
    ensures
        r == ord_state_field(*v, name@),
{
    match v.get_text(name) {
        None => Err(DecodeError::Field),
        Some(s) => str_to_ord_state(s),
    }
}

/// Reads the margin mode held under `name`.
pub fn read_mgn_mode(v: &Value, name: &str) -> (r: Result<MgnMode, DecodeError>)
    ensures
        r == mgn_mode_field(*v, name@),
{
    match v.get_text(name) {
        None => Err(DecodeError::Field),
        Some(s) => str_to_mgn_mode(s),
    }
}

/// Reads the currency held under `name`.
pub fn read_ccy(v: &Value, name: &str) -> (r: Result<Ccy, DecodeError>)
    ensures
        r == ccy_field(*v, name@),
{
    match v.get_text(name) {
        None => Err(DecodeError::Field),
        Some(s) => match Ccy::from_str(s) {
            Some(c) => Ok(c),
            None => Err(DecodeError::Currency),
        },
    }
}

/// The ticker that the record `v` holds, received at `recv_time`; the error
/// of the first field, in the order of the ticker's fields, that cannot be
/// read.
pub open spec fn ticker_of(v: Value, recv_time: Timestamp) -> Result<Ticker, DecodeError> {
    let inst = inst_field(v, "instId"@);
    let exch_time = time_field(v, "ts"@);
    let last = num_field(v, "last"@);
    let last_sz = num_field(v, "lastSz"@);
    let ask_px = num_field(v, "askPx"@);
    let ask_sz = num_field(v, "askSz"@);
    let bid_px = num_field(v, "bidPx"@);
    let bid_sz = num_field(v, "bidSz"@);
    if inst is Err {
        Err(inst->Err_0)
    } else if exch_time is Err {
        Err(exch_time->Err_0)
    } else if last is Err {
        Err(last->Err_0)
    } else if last_sz is Err {
        Err(last_sz->Err_0)
    } else if ask_px is Err {
        Err(ask_px->Err_0)
    } else if ask_sz is Err {
        Err(ask_sz->Err_0)
    } else if bid_px is Err {
        Err(bid_px->Err_0)
    } else if bid_sz is Err {
        Err(bid_sz->Err_0)
    } else {
        Ok(
            Ticker {
                inst: inst->Ok_0,
                exch_time: exch_time->Ok_0,
                recv_time,
                last: last->Ok_0,
                last_sz: last_sz->Ok_0,
                ask_px: ask_px->Ok_0,
                ask_sz: ask_sz->Ok_0,
                bid_px: bid_px->Ok_0,
                bid_sz: bid_sz->Ok_0,
            },
        )
    }
}

/// Reads a ticker from a record of the tickers channel.
pub fn parse_ticker(v: &Value, recv_time: Timestamp) -> (r: Result<Ticker, DecodeError>)
    ensures
        r == ticker_of(*v, recv_time),
{
    let inst = read_inst(v, "instId")?;
    let exch_time = read_time(v, "ts")?;
    let last = read_num(v, "last")?;
    let last_sz = read_num(v, "lastSz")?;
    let ask_px = read_num(v, "askPx")?;
    let ask_sz = read_num(v, "askSz")?;
    let bid_px = read_num(v, "bidPx")?;
    let bid_sz = read_num(v, "bidSz")?;
    Ok(Ticker { inst, exch_time, recv_time, last, last_sz, ask_px, ask_sz, bid_px, bid_sz })
}

/// The funding rate that the record `v` holds, received at `recv_time`; the
/// error of the first field, in the order of its fields, that cannot be read.
pub open spec fn funding_rate_of(v: Value, recv_time: Timestamp) -> Result<
    FundingRate,
    DecodeError,
> {
    let inst = inst_field(v, "instId"@);
    let funding_rate = num_field(v, "fundingRate"@);
    let next_funding_rate = num_field(v, "nextFundingRate"@);
    let funding_time = time_field(v, "fundingTime"@);
    let next_funding_time = time_field(v, "nextFundingTime"@);
    if inst is Err {
        Err(inst->Err_0)
    } else if funding_rate is Err {
        Err(funding_rate->Err_0)
    } else if next_funding_rate is Err {
        Err(next_funding_rate->Err_0)
    } else if funding_time is Err {
        Err(funding_time->Err_0)
    } else if next_funding_time is Err {
        Err(next_funding_time->Err_0)
    } else {
        Ok(
            FundingRate {
                inst: inst->Ok_0,
                recv_time,
                funding_rate: funding_rate->Ok_0,
                next_funding_rate: next_funding_rate->Ok_0,
                funding_time: funding_time->Ok_0,
                next_funding_time: next_funding_time->Ok_0,
            },
        )
    }
}

/// Reads a funding rate from a record of the funding-rate channel.
pub fn parse_funding_rate(v: &Value, recv_time: Timestamp) -> (r: Result<FundingRate, DecodeError>)
    ensures
        r == funding_rate_of(*v, recv_time),
{
    let inst = read_inst(v, "instId")?;
    let funding_rate = read_num(v, "fundingRate")?;
    let next_funding_rate = read_num(v, "nextFundingRate")?;
    let funding_time = read_time(v, "fundingTime")?;
    let next_funding_time = read_time(v, "nextFundingTime")?;
    Ok(
        FundingRate {
            inst,
            recv_time,
            funding_rate,
            next_funding_rate,
            funding_time,
            next_funding_time,
        },
    )
}

/// The open interest that the record `v` holds, received at `recv_time`; the
/// error of the first field, in the order of its fields, that cannot be read.
pub open spec fn open_interest_of(v: Value, recv_time: Timestamp) -> Result<
    OpenInterest,
    DecodeError,
> {
    let inst = inst_field(v, "instId"@);
    let exch_time = time_field(v, "ts"@);
    let oi = num_field(v, "oi"@);
    let oi_ccy = num_field(v, "oiCcy"@);
    if inst is Err {
        Err(inst->Err_0)
    } else if exch_time is Err {
        Err(exch_time->Err_0)
    } else if oi is Err {
        Err(oi->Err_0)
    } else if oi_ccy is Err {
        Err(oi_ccy->Err_0)
    } else {
        Ok(
            OpenInterest {
                inst: inst->Ok_0,
                exch_time: exch_time->Ok_0,
                recv_time,
                oi: oi->Ok_0,
                oi_ccy: oi_ccy->Ok_0,
            },
        )
    }
}

/// Reads an open interest from a record of the open-interest channel.
pub fn parse_open_interest(v: &Value, recv_time: Timestamp) -> (r: Result<
    OpenInterest,
    DecodeError,
>)
    ensures
        r == open_interest_of(*v, recv_time),
{
    let inst = read_inst(v, "instId")?;
    let exch_time = read_time(v, "ts")?;
    let oi = read_num(v, "oi")?;
    let oi_ccy = read_num(v, "oiCcy")?;
    Ok(OpenInterest { inst, exch_time, recv_time, oi, oi_ccy })
}

/// The trade that the record `v` holds, received at `recv_time`; the error of
/// the first field, in the order of its fields, that cannot be read.
pub open spec fn trade_of(v: Value, recv_time: Timestamp) -> Result<Trade, DecodeError> {
    let inst = inst_field(v, "instId"@);
    let exch_time = time_field(v, "ts"@);
    let side = side_field(v, "side"@);
    let px = num_field(v, "px"@);
    let sz = num_field(v, "sz"@);
    if inst is Err {
        Err(inst->Err_0)
    } else if exch_time is Err {
        Err(exch_time->Err_0)
    } else if side is Err {
        Err(side->Err_0)
    } else if px is Err {
        Err(px->Err_0)
    } else if sz is Err {
        Err(sz->Err_0)
    } else {
        Ok(
            Trade {
                inst: inst->Ok_0,
                exch_time: exch_time->Ok_0,
                recv_time,
                side: side->Ok_0,
                px: px->Ok_0,
                sz: sz->Ok_0,
            },
        )
    }
}

/// Reads a trade from a record of the trades channel.
pub fn parse_trade(v: &Value, recv_time: Timestamp) -> (r: Result<Trade, DecodeError>)
    ensures
        r == trade_of(*v, recv_time),
{
    let inst = read_inst(v, "instId")?;
    let exch_time = read_time(v, "ts")?;
    let side = read_side(v, "side")?;
    let px = read_num(v, "px")?;
    let sz = read_num(v, "sz")?;
    Ok(Trade { inst, exch_time, recv_time, side, px, sz })
}

/// The execution report that the record `v` holds; the error of the first
/// field, in the order of its fields, that cannot be read.
pub open spec fn order_of(v: Value) -> Result<ExecutionReport, DecodeError> {
    let c_time = time_field(v, "cTime"@);
    let u_time = time_field(v, "uTime"@);
    let inst = inst_field(v, "instId"@);
    let ord_id = int_field(v, "ordId"@);
    let cl_ord_id = int_field(v, "clOrdId"@);
    let px = num_field(v, "px"@);
    let sz = num_field(v, "sz"@);
    let notional_usd = num_field(v, "notionalUsd"@);
    let ord_type = ord_type_field(v, "ordType"@);
    let side = side_field(v, "side"@);
    let fill_px = num_field(v, "fillPx"@);
    let fill_sz = num_field(v, "fillSz"@);
    let acc_fill_sz = num_field(v, "accFillSz"@);
    let avg_px = num_field(v, "avgPx"@);
    let state = ord_state_field(v, "state"@);
    let lever = num_field(v, "lever"@);
    let fee = num_field(v, "fee"@);
    if c_time is Err {
        Err(c_time->Err_0)
    } else if u_time is Err {
        Err(u_time->Err_0)
    } else if inst is Err {
        Err(inst->Err_0)
    } else if ord_id is Err {
        Err(ord_id->Err_0)
    } else if cl_ord_id is Err {
        Err(cl_ord_id->Err_0)
    } else if px is Err {
        Err(px->Err_0)
    } else if sz is Err {
        Err(sz->Err_0)
    } else if notional_usd is Err {
        Err(notional_usd->Err_0)
    } else if ord_type is Err {
        Err(ord_type->Err_0)
    } else if side is Err {
        Err(side->Err_0)
    } else if fill_px is Err {
        Err(fill_px->Err_0)
    } else if fill_sz is Err {
        Err(fill_sz->Err_0)
    } else if acc_fill_sz is Err {
        Err(acc_fill_sz->Err_0)
    } else if avg_px is Err {
        Err(avg_px->Err_0)
    } else if state is Err {
        Err(state->Err_0)
    } else if lever is Err {
        Err(lever->Err_0)
    } else if fee is Err {
        Err(fee->Err_0)
    } else {
        Ok(
            ExecutionReport {
                c_time: c_time->Ok_0,
                u_time: u_time->Ok_0,
                inst: inst->Ok_0,
                ord_id: ord_id->Ok_0,
                cl_ord_id: cl_ord_id->Ok_0,
                px: px->Ok_0,
                sz: sz->Ok_0,
                notional_usd: notional_usd->Ok_0,
                ord_type: ord_type->Ok_0,
                side: side->Ok_0,
                fill_px: fill_px->Ok_0,
                fill_sz: fill_sz->Ok_0,
                acc_fill_sz: acc_fill_sz->Ok_0,
                avg_px: avg_px->Ok_0,
                state: state->Ok_0,
                lever: lever->Ok_0,
                fee: fee->Ok_0,
            },
        )
    }
}

/// Reads an execution report from a record of the orders channel.
pub fn parse_order(v: &Value) -> (r: Result<ExecutionReport, DecodeError>)
    ensures
        r == order_of(*v),
{
    let c_time = read_time(v, "cTime")?;
    let u_time = read_time(v, "uTime")?;
    let inst = read_inst(v, "instId")?;
    let ord_id = read_int(v, "ordId")?;
    let cl_ord_id = read_int(v, "clOrdId")?;
    let px = read_num(v, "px")?;
    let sz = read_num(v, "sz")?;
    let notional_usd = read_num(v, "notionalUsd")?;
    let ord_type = read_ord_type(v, "ordType")?;
    let side = read_side(v, "side")?;
    let fill_px = read_num(v, "fillPx")?;
    let fill_sz = read_num(v, "fillSz")?;
    let acc_fill_sz = read_num(v, "accFillSz")?;
    let avg_px = read_num(v, "avgPx")?;
    let state = read_ord_state(v, "state")?;
    let lever = read_num(v, "lever")?;
    let fee = read_num(v, "fee")?;
    Ok(
        ExecutionReport {
            c_time,
            u_time,
            inst,
            ord_id,
            cl_ord_id,
            px,
            sz,
            notional_usd,
            ord_type,
            side,
            fill_px,
            fill_sz,
            acc_fill_sz,
            avg_px,
            state,
            lever,
            fee,
        },
    )
}

/// The position that the record `v` holds; the error of the first field, in
/// the order of its fields, that cannot be read.
pub open spec fn position_of(v: Value) -> Result<PositionReport, DecodeError> {
    let u_time = time_field(v, "uTime"@);
    let inst = inst_field(v, "instId"@);
    let mgn_mode = mgn_mode_field(v, "mgnMode"@);
    let pos = num_field(v, "pos"@);
    let ccy = ccy_field(v, "ccy"@);
    let pos_ccy = ccy_field(v, "posCcy"@);
    let avg_px = num_field(v, "avgPx"@);
    if u_time is Err {
        Err(u_time->Err_0)
    } else if inst is Err {
        Err(inst->Err_0)
    } else if mgn_mode is Err {
        Err(mgn_mode->Err_0)
    } else if pos is Err {
        Err(pos->Err_0)
    } else if ccy is Err {
        Err(ccy->Err_0)
    } else if pos_ccy is Err {
        Err(pos_ccy->Err_0)
    } else if avg_px is Err {
        Err(avg_px->Err_0)
    } else {
        Ok(
            PositionReport {
                u_time: u_time->Ok_0,
                inst: inst->Ok_0,
                mgn_mode: mgn_mode->Ok_0,
                pos: pos->Ok_0,
                ccy: ccy->Ok_0,
                pos_ccy: pos_ccy->Ok_0,
                avg_px: avg_px->Ok_0,
            },
        )
    }
}

/// Reads a position from a record of the positions channel.
pub fn parse_position(v: &Value) -> (r: Result<PositionReport, DecodeError>)
    ensures
        r == position_of(*v),
{
    let u_time = read_time(v, "uTime")?;
    let inst = read_inst(v, "instId")?;
    let mgn_mode = read_mgn_mode(v, "mgnMode")?;
    let pos = read_num(v, "pos")?;
    let ccy = read_ccy(v, "ccy")?;
    let pos_ccy = read_ccy(v, "posCcy")?;
    let avg_px = read_num(v, "avgPx")?;
    Ok(PositionReport { u_time, inst, mgn_mode, pos, ccy, pos_ccy, avg_px })
}

/// The balance, held at this exchange, that the record `v` holds; the error
/// of the first field, in the order of its fields, that cannot be read.
pub open spec fn balance_of(v: Value) -> Result<BalanceReport, DecodeError> {
    let u_time = time_field(v, "uTime"@);
    let ccy = ccy_field(v, "ccy"@);
    let cash_bal = num_field(v, "cashBal"@);
    if u_time is Err {
        Err(u_time->Err_0)
    } else if ccy is Err {
        Err(ccy->Err_0)
    } else if cash_bal is Err {
        Err(cash_bal->Err_0)
    } else {
        Ok(
            BalanceReport {
                u_time: u_time->Ok_0,
                exch: Exch::Okx,
                ccy: ccy->Ok_0,
                cash_bal: cash_bal->Ok_0,
            },
        )
    }
}

/// Reads a balance from a balance record of the balance-and-position channel.
pub fn parse_balance_and_position(v: &Value) -> (r: Result<BalanceReport, DecodeError>)
    ensures
        r == balance_of(*v),
{
    let u_time = read_time(v, "uTime")?;
    let ccy = read_ccy(v, "ccy")?;
    let cash_bal = read_num(v, "cashBal")?;
    Ok(BalanceReport { u_time, exch: Exch::Okx, ccy, cash_bal })
}

/// The level that stands where the exchange gave none.
pub open spec fn zero_level() -> Level {
    (Num::spec_zero(), Num::spec_zero())
}

/// The number that a cell of a level writes.
pub open spec fn cell_num(cell: Value) -> Result<Num, DecodeError> {
    match cell {
        Value::Text { text, num } => found_or(num, DecodeError::Number),
        _ => Err(DecodeError::Field),
    }
}

/// The level that an item of a book side holds: a list whose first two
/// cells write the price and the size.
pub open spec fn level_of(item: Value) -> Result<Level, DecodeError> {
    match item {
        Value::List(cells) => {
            if cells@.len() < 2 {
                Err(DecodeError::Field)
            } else {
                let px = cell_num(cells@[0]);
                let sz = cell_num(cells@[1]);
                if px is Err {
                    Err(px->Err_0)
                } else if sz is Err {
                    Err(sz->Err_0)
                } else {
                    Ok((px->Ok_0, sz->Ok_0))
                }
            }
        },
        _ => Err(DecodeError::Field),
    }
}

/// The levels of the first `n` of `items`, or the error of the first of
/// them that holds no level.
pub open spec fn levels_of(items: Seq<Value>, n: nat) -> Result<Seq<Level>, DecodeError>
    decreases n,
{
    if n == 0 {
        Ok(Seq::empty())
    } else {
        match levels_of(items, (n - 1) as nat) {
            Err(e) => Err(e),
            Ok(levels) => match level_of(items[n - 1]) {
                Err(e) => Err(e),
                Ok(level) => Ok(levels.push(level)),
            },
        }
    }
}

/// Five levels: those of `levels`, in order, then zero levels.
pub open spec fn top5(levels: Seq<Level>) -> Seq<Level> {
    Seq::new(5, |i: int| if i < levels.len() { levels[i] } else { zero_level() })
}

/// How many items of a book side are read: all of them, five at most.
pub open spec fn levels_read(items: Seq<Value>) -> nat {
    if items.len() < 5 {
        items.len()
    } else {
        5
    }
}

/// The book side that a record holds under `name`: the levels of its first
/// five items, filled up with zero levels.
pub open spec fn side_of(v: Value, name: Seq<char>) -> Result<Seq<Level>, DecodeError> {
    match v.list_at(name) {
        None => Err(DecodeError::Field),
        Some(items) => match levels_of(items, levels_read(items)) {
            Err(e) => Err(e),
            Ok(levels) => Ok(top5(levels)),
        },
    }
}

/// The depth that the record `v` holds, received at `recv_time`; the error
/// of the first of asks, bids, instrument and time that cannot be read.
pub open spec fn depth_of(v: Value, recv_time: Timestamp) -> Result<DepthView, DecodeError> {
    let asks = side_of(v, "asks"@);
    let bids = side_of(v, "bids"@);
    let inst = inst_field(v, "instId"@);
    let exch_time = time_field(v, "ts"@);
    if asks is Err {
        Err(asks->Err_0)
    } else if bids is Err {
        Err(bids->Err_0)
    } else if inst is Err {
        Err(inst->Err_0)
    } else if exch_time is Err {
        Err(exch_time->Err_0)
    } else {
        Ok(
            DepthView {
                inst: inst->Ok_0,
                exch_time: exch_time->Ok_0,
                recv_time,
                asks: asks->Ok_0,
                bids: bids->Ok_0,
            },
        )
    }
}

/// An error among the first items of a book side is the error of every
/// longer reading.
pub proof fn lemma_levels_error(items: Seq<Value>, k: nat, n: nat)
    requires
        k <= n,
        levels_of(items, k) is Err,
    ensures
        levels_of(items, n) == levels_of(items, k),
    decreases n,
{
    if k < n {
        lemma_levels_error(items, k, (n - 1) as nat);
    }
}

/// The levels that are read are as many as the items they are read from.
pub proof fn lemma_levels_len(items: Seq<Value>, n: nat)
    ensures
        levels_of(items, n) matches Ok(levels) ==> levels.len() == n,
    decreases n,
{
    if n > 0 {
        lemma_levels_len(items, (n - 1) as nat);
    }
}

/// The levels that are read are those of the items, in their order.
pub proof fn lemma_levels_items(items: Seq<Value>, n: nat, i: int)
    requires
        0 <= i < n,
        levels_of(items, n) is Ok,
    ensures
        levels_of(items, n)->Ok_0.len() == n,
        level_of(items[i]) == Ok::<Level, DecodeError>(levels_of(items, n)->Ok_0[i]),
    decreases n,
{
    lemma_levels_len(items, n);
    if i < n - 1 {
        lemma_levels_items(items, (n - 1) as nat, i);
    }
}

/// Every depth that is read has five levels on each side: the first levels
/// of the exchange, in their order, then zero levels from the place where
/// the exchange's levels end.
pub proof fn lemma_depth_shape(v: Value, recv_time: Timestamp)
    ensures
        depth_of(v, recv_time) matches Ok(d) ==> {
            let asks = v.list_at("asks"@)->Some_0;
            let bids = v.list_at("bids"@)->Some_0;
            &&& d.asks.len() == 5
            &&& d.bids.len() == 5
            &&& forall|i: int|
                0 <= i < 5 && i < asks.len() ==> level_of(asks[i]) == Ok::<Level, DecodeError>(
                    d.asks[i],
                )
            &&& forall|i: int|
                0 <= i < 5 && i < bids.len() ==> level_of(bids[i]) == Ok::<Level, DecodeError>(
                    d.bids[i],
                )
            &&& forall|i: int| asks.len() <= i < 5 ==> d.asks[i] == zero_level()
            &&& forall|i: int| bids.len() <= i < 5 ==> d.bids[i] == zero_level()
        },
{
    if depth_of(v, recv_time) is Ok {
        let d = depth_of(v, recv_time)->Ok_0;
        let asks = v.list_at("asks"@)->Some_0;
        let bids = v.list_at("bids"@)->Some_0;
        lemma_levels_len(asks, levels_read(asks));
        lemma_levels_len(bids, levels_read(bids));
        assert forall|i: int| 0 <= i < 5 && i < asks.len() implies level_of(asks[i]) == Ok::<
            Level,
            DecodeError,
        >(d.asks[i]) by {
            lemma_levels_items(asks, levels_read(asks), i);
        }
        assert forall|i: int| 0 <= i < 5 && i < bids.len() implies level_of(bids[i]) == Ok::<
            Level,
            DecodeError,
        >(d.bids[i]) by {
            lemma_levels_items(bids, levels_read(bids), i);
        }
    }
}

/// Reads a number from a cell of a level.
fn read_cell(cell: &Value) -> (r: Result<Num, DecodeError>)
    ensures
        r == cell_num(*cell),
{
    match cell {
        Value::Text { text, num } => match num {
            Some(n) => Ok(*n),
            None => Err(DecodeError::Number),
        },
        _ => Err(DecodeError::Field),
    }
}

/// Reads a level from an item of a book side.
pub fn read_level(item: &Value) -> (r: Result<Level, DecodeError>)
    ensures
        r == level_of(*item),
{
    match item {
        Value::List(cells) => {
            if cells.len() < 2 {
                return Err(DecodeError::Field);
            }
            let px = read_cell(&cells[0])?;
            let sz = read_cell(&cells[1])?;
            Ok((px, sz))
        },
        _ => Err(DecodeError::Field),
    }
}

/// Reads the book side held under `name`.
pub fn read_book_side(v: &Value, name: &str) -> (r: Result<[Level; 5], DecodeError>)
    ensures
        match r {
            Ok(side) => side_of(*v, name@) == Ok::<Seq<Level>, DecodeError>(side@),
            Err(e) => side_of(*v, name@) == Err::<Seq<Level>, DecodeError>(e),
        },
{
    let items = match v.get_list(name) {
        Some(items) => items,
        None => { return Err(DecodeError::Field); },
    };
    let n: usize = if items.len() < 5 { items.len() } else { 5 };
    let zero: Level = (Num::zero(), Num::zero());
    let mut side: [Level; 5] = [zero, zero, zero, zero, zero];
    let mut i: usize = 0;
    assert(side@.take(0) =~= Seq::<Level>::empty());
    while i < n
        invariant
            i <= n,
            n == levels_read(items@),
            v.list_at(name@) == Some(items@),
            levels_of(items@, i as nat) == Ok::<Seq<Level>, DecodeError>(side@.take(i as int)),
            forall|j: int| i <= j < 5 ==> side@[j] == zero_level(),
        decreases n - i,
    {
        let level = match read_level(&items[i]) {
            Ok(level) => level,
            Err(e) => {
                proof {
                    lemma_levels_error(items@, (i + 1) as nat, n as nat);
                }
                return Err(e);
            },
        };
        let ghost before = side@;
        side[i] = level;
        proof {
            assert(side@.take(i + 1) =~= before.take(i as int).push(level));
        }
        i = i + 1;
    }
    proof {
        assert(side@ =~= top5(side@.take(n as int)));
    }
    Ok(side)
}

/// Reads a depth from a record of the five-level book channel.
pub fn parse_books5(v: &Value, recv_time: Timestamp) -> (r: Result<Depth, DecodeError>)
    ensures
        match r {
            Ok(d) => depth_of(*v, recv_time) == Ok::<DepthView, DecodeError>(d@),
            Err(e) => depth_of(*v, recv_time) == Err::<DepthView, DecodeError>(e),
        },
{
    let asks = read_book_side(v, "asks")?;
    let bids = read_book_side(v, "bids")?;
    let inst = read_inst(v, "instId")?;
    let exch_time = read_time(v, "ts")?;
    Ok(Depth { inst, exch_time, recv_time, asks, bids })
}

} // verus!
