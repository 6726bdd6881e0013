//! The two streaming clients: what they send, what they receive, and how the
//! private client keeps track of the commands it has sent.
use crate::api::okx::parser::{
    balance_of, depth_of, funding_rate_of, inst_to_str, int_field, open_interest_of, ord_type_name,
    ord_type_to_str, order_of, parse_balance_and_position, parse_books5, parse_funding_rate,
    parse_open_interest, parse_order, parse_position, parse_ticker, parse_trade, position_of,
    read_int, side_name, side_to_str, td_mode_name, td_mode_to_str, ticker_of, trade_of,
    wire_encode,
};
use crate::api::okx::sign::{byte_len, get_sign, signature, SignError, SIGN_LIMIT};
use crate::api::okx::value::{
    field, is_optional_text, is_text_entry, lookup, optional_text_value, text_entry, Field, Value,
};
use crate::common::defs::DecodeError;
use crate::common::msgs::{
    msg_views, CancelOrder, CancelReject, ExecutionReport, Msg, MsgView, NewOrder, Num, Timestamp,
};
use crate::text::{push_i64, str_eq, to_decimal};
use std::collections::HashMap;
use vstd::prelude::*;
use vstd::string::StringExecFns;

verus! {

broadcast use vstd::std_specs::hash::group_hash_axioms;

/// A channel of the exchange's streams.
#[non_exhaustive]
#[derive(Debug, Copy, Clone, PartialEq, Eq, Structural)]
pub enum WsChannel {
    Positions,
    BalanceAndPosition,
    Orders,
    Tickers,
    FundingRate,
    OpenInterest,
    Books5,
    Trade,
}

impl WsChannel {
    /// The exchange's name of the channel.
    pub open spec fn name(self) -> Seq<char> {
        match self {
            WsChannel::Positions => "positions"@,
            WsChannel::BalanceAndPosition => "balance_and_position"@,
            WsChannel::Orders => "orders"@,
            WsChannel::Tickers => "tickers"@,
            WsChannel::FundingRate => "funding-rate"@,
            WsChannel::OpenInterest => "open-interest"@,
            WsChannel::Books5 => "books5"@,
            WsChannel::Trade => "trade"@,
        }
    }

    /// The channel that the exchange calls `s`.
    pub open spec fn named(s: Seq<char>) -> Option<WsChannel> {
        if s == "positions"@ {
            Some(WsChannel::Positions)
        } else if s == "balance_and_position"@ {
            Some(WsChannel::BalanceAndPosition)
        } else if s == "orders"@ {
            Some(WsChannel::Orders)
        } else if s == "tickers"@ {
            Some(WsChannel::Tickers)
        } else if s == "funding-rate"@ {
            Some(WsChannel::FundingRate)
        } else if s == "open-interest"@ {
            Some(WsChannel::OpenInterest)
        } else if s == "books5"@ {
            Some(WsChannel::Books5)
        } else if s == "trade"@ {
            Some(WsChannel::Trade)
        } else {
            None
        }
    }

    /// The exchange's name of the channel.
    pub fn to_str(&self) -> (r: &'static str)
        ensures
            r@ == self.name(),
    {
        match self {
            WsChannel::Positions => "positions",
            WsChannel::BalanceAndPosition => "balance_and_position",
            WsChannel::Orders => "orders",
            WsChannel::Tickers => "tickers",
            WsChannel::FundingRate => "funding-rate",
            WsChannel::OpenInterest => "open-interest",
            WsChannel::Books5 => "books5",
            WsChannel::Trade => "trade",
        }
    }

    /// Reads the exchange's name of a channel.
    pub fn from_str(s: &str) -> (r: Option<WsChannel>)
        ensures
            r == WsChannel::named(s@),
    {
        if str_eq(s, "positions") {
            Some(WsChannel::Positions)
        } else if str_eq(s, "balance_and_position") {
            Some(WsChannel::BalanceAndPosition)
        } else if str_eq(s, "orders") {
            Some(WsChannel::Orders)
        } else if str_eq(s, "tickers") {
            Some(WsChannel::Tickers)
        } else if str_eq(s, "funding-rate") {
            Some(WsChannel::FundingRate)
        } else if str_eq(s, "open-interest") {
            Some(WsChannel::OpenInterest)
        } else if str_eq(s, "books5") {
            Some(WsChannel::Books5)
        } else if str_eq(s, "trade") {
            Some(WsChannel::Trade)
        } else {
            None
        }
    }

    /// Every channel is read back from its name.
    pub proof fn lemma_name(self)
        ensures
            WsChannel::named(self.name()) == Some(self),
    {
        reveal_strlit("positions");
        reveal_strlit("balance_and_position");
        reveal_strlit("orders");
        reveal_strlit("tickers");
        reveal_strlit("funding-rate");
        reveal_strlit("open-interest");
        reveal_strlit("books5");
        reveal_strlit("trade");
        assert("positions"@ =~= seq!['p', 'o', 's', 'i', 't', 'i', 'o', 'n', 's']);
        assert("balance_and_position"@ =~= seq![
            'b',
            'a',
            'l',
            'a',
            'n',
            'c',
            'e',
            '_',
            'a',
            'n',
            'd',
            '_',
            'p',
            'o',
            's',
            'i',
            't',
            'i',
            'o',
            'n',
        ]);
        assert("orders"@ =~= seq!['o', 'r', 'd', 'e', 'r', 's']);
        assert("tickers"@ =~= seq!['t', 'i', 'c', 'k', 'e', 'r', 's']);
        assert("funding-rate"@ =~= seq![
            'f',
            'u',
            'n',
            'd',
            'i',
            'n',
            'g',
            '-',
            'r',
            'a',
            't',
            'e',
        ]);
        assert("open-interest"@ =~= seq![
            'o',
            'p',
            'e',
            'n',
            '-',
            'i',
            'n',
            't',
            'e',
            'r',
            'e',
            's',
            't',
        ]);
        assert("books5"@ =~= seq!['b', 'o', 'o', 'k', 's', '5']);
    }
}

/// What a subscription names: a channel and, where the channel needs them,
/// an instrument, an instrument type or an instrument family.
#[derive(Debug)]
pub struct WsChannelArg {
    pub channel: WsChannel,
    pub inst_id: Option<String>,
    pub inst_type: Option<String>,
    pub inst_family: Option<String>,
}

/// The text of an optional string.
pub open spec fn opt_text(s: Option<String>) -> Option<Seq<char>> {
    match s {
        Some(s) => Some(s@),
        None => None,
    }
}

/// What a `WsChannelArg` holds, with its texts as character sequences.
pub struct WsChannelArgView {
    pub channel: WsChannel,
    pub inst_id: Option<Seq<char>>,
    pub inst_type: Option<Seq<char>>,
    pub inst_family: Option<Seq<char>>,
}

impl View for WsChannelArg {
    type V = WsChannelArgView;

    open spec fn view(&self) -> WsChannelArgView {
        WsChannelArgView {
            channel: self.channel,
            inst_id: opt_text(self.inst_id),
            inst_type: opt_text(self.inst_type),
            inst_family: opt_text(self.inst_family),
        }
    }
}

/// The views of a list of subscriptions.
pub open spec fn arg_views(args: Seq<WsChannelArg>) -> Seq<WsChannelArgView> {
    Seq::new(args.len(), |i: int| args[i]@)
}

/// The credentials of a login.
#[derive(Debug)]
pub struct WsAccount {
    pub api_key: String,
    pub passphrase: String,
    pub timestamp: String,
    pub sign: String,
}

/// An order as the exchange takes it.
#[derive(Debug)]
pub struct WsOrder {
    pub inst_id: String,
    pub td_mode: String,
    pub cl_ord_id: String,
    pub side: String,
    pub ord_type: String,
    pub sz: Num,
    pub px: Num,
}

/// A cancellation as the exchange takes it.
#[derive(Debug)]
pub struct WsCancel {
    pub inst_id: String,
    pub cl_ord_id: String,
}

/// A command sent to the exchange.
#[allow(inconsistent_fields)]
#[derive(Debug)]
pub enum WsCommand {
    Login { args: Vec<WsAccount> },
    Subscribe { args: Vec<WsChannelArg> },
    Order { id: String, args: Vec<WsOrder> },
    CancelOrder { id: String, args: Vec<WsCancel> },
}

/// The operation that a trade result answers.
#[derive(Debug, Copy, Clone, PartialEq, Eq, Structural)]
pub enum WsOp {
    Order,
    CancelOrder,
}

impl WsOp {
    /// The exchange's name of the operation.
    pub open spec fn name(self) -> Seq<char> {
        match self {
            WsOp::Order => "order"@,
            WsOp::CancelOrder => "cancel-order"@,
        }
    }

    /// The operation that the exchange calls `s`.
    pub open spec fn named(s: Seq<char>) -> Option<WsOp> {
        if s == "order"@ {
            Some(WsOp::Order)
        } else if s == "cancel-order"@ {
            Some(WsOp::CancelOrder)
        } else {
            None
        }
    }

    /// The exchange's name of the operation.
    pub fn to_str(&self) -> (r: &'static str)
        ensures
            r@ == self.name(),
    {
        match self {
            WsOp::Order => "order",
            WsOp::CancelOrder => "cancel-order",
        }
    }

    /// Reads the exchange's name of a operation.
    pub fn from_str(s: &str) -> (r: Option<WsOp>)
        ensures
            r == WsOp::named(s@),
    {
        if str_eq(s, "order") {
            Some(WsOp::Order)
        } else if str_eq(s, "cancel-order") {
            Some(WsOp::CancelOrder)
        } else {
            None
        }
    }

    /// Every operation is read back from its name.
    pub proof fn lemma_name(self)
        ensures
            WsOp::named(self.name()) == Some(self),
    {
        reveal_strlit("order");
        reveal_strlit("cancel-order");
        assert("order"@ =~= seq!['o', 'r', 'd', 'e', 'r']);
    }
}

/// The event that a login result reports.
#[derive(Debug, Copy, Clone, PartialEq, Eq, Structural)]
pub enum WsEvent {
    Login,
    Error,
}

impl WsEvent {
    /// The exchange's name of the event.
    pub open spec fn name(self) -> Seq<char> {
        match self {
            WsEvent::Login => "login"@,
            WsEvent::Error => "error"@,
        }
    }

    /// The event that the exchange calls `s`.
    pub open spec fn named(s: Seq<char>) -> Option<WsEvent> {
        if s == "login"@ {
            Some(WsEvent::Login)
        } else if s == "error"@ {
            Some(WsEvent::Error)
        } else {
            None
        }
    }

    /// The exchange's name of the event.
    pub fn to_str(&self) -> (r: &'static str)
        ensures
            r@ == self.name(),
    {
        match self {
            WsEvent::Login => "login",
            WsEvent::Error => "error",
        }
    }

    /// Reads the exchange's name of a event.
    pub fn from_str(s: &str) -> (r: Option<WsEvent>)
        ensures
            r == WsEvent::named(s@),
    {
        if str_eq(s, "login") {
            Some(WsEvent::Login)
        } else if str_eq(s, "error") {
            Some(WsEvent::Error)
        } else {
            None
        }
    }

    /// Every event is read back from its name.
    pub proof fn lemma_name(self)
        ensures
            WsEvent::named(self.name()) == Some(self),
    {
        reveal_strlit("login");
        reveal_strlit("error");
        assert("login"@ =~= seq!['l', 'o', 'g', 'i', 'n']);
    }
}

/// The exchange's answer to an order or a cancellation.
#[derive(Debug)]
pub struct TradeResult {
    pub id: i64,
    pub op: WsOp,
    pub code: i64,
    pub msg: String,
}

impl TradeResult {
    /// Whether the exchange accepted the command.
    pub open spec fn spec_is_ok(&self) -> bool {
        self.code == 0
    }

    /// Whether the exchange accepted the command.
    #[verifier::when_used_as_spec(spec_is_ok)]
    pub fn is_ok(&self) -> (r: bool)
        ensures
            r == (self.code == 0),
    {
        self.code == 0
    }
}

/// The exchange's answer to a login.
#[derive(Debug)]
pub struct LoginResult {
    pub event: WsEvent,
    pub code: i64,
    pub msg: String,
}

impl LoginResult {
    /// Whether the login succeeded.
    pub open spec fn spec_is_ok(&self) -> bool {
        self.code == 0
    }

    /// Whether the login succeeded.
    #[verifier::when_used_as_spec(spec_is_ok)]
    pub fn is_ok(&self) -> (r: bool)
        ensures
            r == (self.code == 0),
    {
        self.code == 0
    }
}

/// A frame received from the exchange.
#[derive(Debug)]
pub enum WsMessage {
    Data { data: Vec<Value>, arg: WsChannelArg },
    TradeResult(TradeResult),
    LoginResult(LoginResult),
    SubscribeResult { arg: WsChannelArg },
}

/// The subscription that an object writes: the name of a channel under
/// `channel` and, where they are there, texts under `instId`, `instType`
/// and `instFamily`.
pub open spec fn arg_of(v: Value) -> Option<WsChannelArg> {
    match v.text_at("channel"@) {
        None => None,
        Some(name) => match WsChannel::named(name) {
            None => None,
            Some(channel) => {
                let inst_id = v.optional_string_at("instId"@);
                let inst_type = v.optional_string_at("instType"@);
                let inst_family = v.optional_string_at("instFamily"@);
                if inst_id is None || inst_type is None || inst_family is None {
                    None
                } else {
                    Some(
                        WsChannelArg {
                            channel,
                            inst_id: inst_id->Some_0,
                            inst_type: inst_type->Some_0,
                            inst_family: inst_family->Some_0,
                        },
                    )
                }
            },
        },
    }
}

/// The subscription that a frame holds under `arg`.
pub open spec fn arg_at(v: Value) -> Option<WsChannelArg> {
    match v.member("arg"@) {
        Some(arg) => arg_of(arg),
        None => None,
    }
}

/// The answer to a command that a frame writes: the correlation id and the
/// code as decimal texts under `id` and `code`, the name of the operation
/// under `op`, and a message under `msg`.
pub open spec fn trade_result_of(v: Value) -> Option<TradeResult> {
    let id = int_field(v, "id"@);
    let op = match v.text_at("op"@) {
        Some(name) => WsOp::named(name),
        None => None,
    };
    let code = int_field(v, "code"@);
    let msg = v.string_at("msg"@);
    if id is Err || op is None || code is Err || msg is None {
        None
    } else {
        Some(TradeResult { id: id->Ok_0, op: op->Some_0, code: code->Ok_0, msg: msg->Some_0 })
    }
}

/// The answer to a login that a frame writes: the name of the event under
/// `event`, the code as a decimal text under `code`, and a message under
/// `msg`.
pub open spec fn login_result_of(v: Value) -> Option<LoginResult> {
    let event = match v.text_at("event"@) {
        Some(name) => WsEvent::named(name),
        None => None,
    };
    let code = int_field(v, "code"@);
    let msg = v.string_at("msg"@);
    if event is None || code is Err || msg is None {
        None
    } else {
        Some(LoginResult { event: event->Some_0, code: code->Ok_0, msg: msg->Some_0 })
    }
}

/// The frame that a decoded value writes. A value with a list under `data`
/// and a subscription under `arg` is a data frame; else one that writes an
/// answer to a command is that answer; else one that writes an answer to a
/// login is that answer; else one with a subscription under `arg`
/// acknowledges that subscription. Any other value is no frame.
pub open spec fn frame_of(v: Value) -> Result<WsMessage, DecodeError> {
    if v.items_at("data"@) is Some && arg_at(v) is Some {
        Ok(WsMessage::Data { data: v.items_at("data"@)->Some_0, arg: arg_at(v)->Some_0 })
    } else if trade_result_of(v) is Some {
        Ok(WsMessage::TradeResult(trade_result_of(v)->Some_0))
    } else if login_result_of(v) is Some {
        Ok(WsMessage::LoginResult(login_result_of(v)->Some_0))
    } else if arg_at(v) is Some {
        Ok(WsMessage::SubscribeResult { arg: arg_at(v)->Some_0 })
    } else {
        Err(DecodeError::Frame)
    }
}

/// Reads a subscription from an object.
pub fn read_arg(v: &Value) -> (r: Option<WsChannelArg>)
    ensures
        r == arg_of(*v),
{
    let channel = match v.get_text("channel") {
        Some(name) => match WsChannel::from_str(name) {
            Some(channel) => channel,
            None => { return None; },
        },
        None => { return None; },
    };
    let inst_id = v.get_optional_string("instId");
    let inst_type = v.get_optional_string("instType");
    let inst_family = v.get_optional_string("instFamily");
    match (inst_id, inst_type, inst_family) {
        (Some(inst_id), Some(inst_type), Some(inst_family)) => Some(
            WsChannelArg { channel, inst_id, inst_type, inst_family },
        ),
        _ => None,
    }
}

/// Reads the subscription that a frame holds under `arg`.
pub fn read_arg_at(v: &Value) -> (r: Option<WsChannelArg>)
    ensures
        r == arg_at(*v),
{
    match v.get("arg") {
        Some(arg) => read_arg(arg),
        None => None,
    }
}

/// Reads an answer to a command from a frame.
pub fn read_trade_result(v: &Value) -> (r: Option<TradeResult>)
    ensures
        r == trade_result_of(*v),
{
    let id = read_int(v, "id");
    let op = match v.get_text("op") {
        Some(name) => WsOp::from_str(name),
        None => None,
    };
    let code = read_int(v, "code");
    let msg = v.get_string("msg");
    match (id, op, code, msg) {
        (Ok(id), Some(op), Ok(code), Some(msg)) => Some(TradeResult { id, op, code, msg }),
        _ => None,
    }
}

/// Reads an answer to a login from a frame.
pub fn read_login_result(v: &Value) -> (r: Option<LoginResult>)
    ensures
        r == login_result_of(*v),
{
    let event = match v.get_text("event") {
        Some(name) => WsEvent::from_str(name),
        None => None,
    };
    let code = read_int(v, "code");
    let msg = v.get_string("msg");
    match (event, code, msg) {
        (Some(event), Ok(code), Some(msg)) => Some(LoginResult { event, code, msg }),
        _ => None,
    }
}

impl WsMessage {
    /// Reads a frame from its decoded value.
    pub fn from_value(v: Value) -> (r: Result<WsMessage, DecodeError>)
        ensures
            r == frame_of(v),
    {
        let arg = read_arg_at(&v);
        let has_data = v.get_list("data").is_some();
        if has_data {
            match arg {
                Some(arg) => {
                    return match v.take_list("data") {
                        Some(data) => Ok(WsMessage::Data { data, arg }),
                        None => Err(DecodeError::Frame),
                    };
                },
                None => {},
            }
        }
        match read_trade_result(&v) {
            Some(res) => { return Ok(WsMessage::TradeResult(res)); },
            None => {},
        }
        match read_login_result(&v) {
            Some(res) => { return Ok(WsMessage::LoginResult(res)); },
            None => {},
        }
        match arg {
            Some(arg) => Ok(WsMessage::SubscribeResult { arg }),
            None => Err(DecodeError::Frame),
        }
    }
}

/// A copy of an optional string.
fn copy_text(s: &Option<String>) -> (r: Option<String>)
    ensures
        r == *s,
{
    match s {
        Some(s) => Some(s.clone()),
        None => None,
    }
}

/// A copy of a subscription.
pub fn copy_arg(arg: &WsChannelArg) -> (r: WsChannelArg)
    ensures
        r == *arg,
{
    WsChannelArg {
        channel: arg.channel,
        inst_id: copy_text(&arg.inst_id),
        inst_type: copy_text(&arg.inst_type),
        inst_family: copy_text(&arg.inst_family),
    }
}

/// A copy of a list of subscriptions.
pub fn copy_args(args: &Vec<WsChannelArg>) -> (r: Vec<WsChannelArg>)
    ensures
        r@ == args@,
{
    let mut out: Vec<WsChannelArg> = Vec::new();
    let mut i: usize = 0;
    while i < args.len()
        invariant
            i <= args@.len(),
            out@ == args@.take(i as int),
        decreases args@.len() - i,
    {
        out.push(copy_arg(&args[i]));
        i = i + 1;
    }
    out
}

/// Whether `cmd` subscribes to exactly `channels`, in their order.
pub open spec fn is_subscribe_command(cmd: WsCommand, channels: Seq<WsChannelArg>) -> bool {
    cmd matches WsCommand::Subscribe { args } && args@ == channels
}

/// Whether `cmd` is the login of an account at the time `timestamp`: one
/// entry with the key, the passphrase, the time, and the signature of a
/// `GET` of the verification path without a body.
pub open spec fn is_login_command(
    cmd: WsCommand,
    apikey: Seq<char>,
    passphrase: Seq<char>,
    timestamp: Seq<char>,
    secretkey: Seq<char>,
) -> bool {
    cmd matches WsCommand::Login { args } && args@.len() == 1 && {
        let a = args@[0];
        &&& a.api_key@ == apikey
        &&& a.passphrase@ == passphrase
        &&& a.timestamp@ == timestamp
        &&& a.sign@ == signature(timestamp, "GET"@, "/users/self/verify"@, ""@, secretkey)
    }
}

/// Whether `cmd` places `order` under the correlation id `id`: command and
/// entry carry the id in decimal, and the entry names the order's
/// instrument, trade mode, side and type as the exchange does.
pub open spec fn is_order_command(cmd: WsCommand, order: NewOrder, id: i64) -> bool {
    cmd matches WsCommand::Order { id: command_id, args } && command_id@ == to_decimal(id as int)
        && args@.len() == 1 && {
        let a = args@[0];
        &&& a.inst_id@ == wire_encode(order.inst)
        &&& a.td_mode@ == td_mode_name(order.td_mode)
        &&& a.cl_ord_id@ == to_decimal(id as int)
        &&& a.side@ == side_name(order.side)
        &&& a.ord_type@ == ord_type_name(order.ord_type)
        &&& a.sz == order.sz
        &&& a.px == order.px
    }
}

/// Whether `cmd` sends `cancel` under the correlation id `id`: the command
/// carries the id, and the entry the instrument and the client order id of
/// the order to cancel.
pub open spec fn is_cancel_command(cmd: WsCommand, cancel: CancelOrder, id: i64) -> bool {
    cmd matches WsCommand::CancelOrder { id: command_id, args } && command_id@ == to_decimal(
        id as int,
    ) && args@.len() == 1 && {
        let a = args@[0];
        &&& a.inst_id@ == wire_encode(cancel.inst)
        &&& a.cl_ord_id@ == to_decimal(cancel.cl_ord_id as int)
    }
}

/// The decimal text of `n`.
pub fn i64_to_string(n: i64) -> (r: String)
    ensures
        r@ == to_decimal(n as int),
{
    let mut out = String::new();
    push_i64(n, &mut out);
    out
}

/// The command that places `order` under the correlation id `id`.
pub fn order_command(order: &NewOrder, id: i64) -> (cmd: WsCommand)
    ensures
        is_order_command(cmd, *order, id),
{
    let ws_order = WsOrder {
        inst_id: inst_to_str(&order.inst),
        td_mode: String::from_str(td_mode_to_str(&order.td_mode)),
        cl_ord_id: i64_to_string(id),
        side: String::from_str(side_to_str(&order.side)),
        ord_type: String::from_str(ord_type_to_str(&order.ord_type)),
        sz: order.sz,
        px: order.px,
    };
    let mut args: Vec<WsOrder> = Vec::new();
    args.push(ws_order);
    WsCommand::Order { id: i64_to_string(id), args }
}

/// The command that sends `cancel` under the correlation id `id`.
pub fn cancel_command(cancel: &CancelOrder, id: i64) -> (cmd: WsCommand)
    ensures
        is_cancel_command(cmd, *cancel, id),
{
    let ws_cancel = WsCancel {
        inst_id: inst_to_str(&cancel.inst),
        cl_ord_id: i64_to_string(cancel.cl_ord_id),
    };
    let mut args: Vec<WsCancel> = Vec::new();
    args.push(ws_cancel);
    WsCommand::CancelOrder { id: i64_to_string(id), args }
}

/// Whether `v` writes a subscription: its channel by name, then the
/// instrument, the instrument type and the instrument family, each a text
/// or nothing.
pub open spec fn encodes_arg(v: Value, arg: WsChannelArg) -> bool {
    v matches Value::Object(f) && f@.len() == 4 && {
        &&& is_text_entry(f@[0], "channel"@, arg.channel.name())
        &&& f@[1].name@ == "instId"@ && is_optional_text(f@[1].value, arg.inst_id)
        &&& f@[2].name@ == "instType"@ && is_optional_text(f@[2].value, arg.inst_type)
        &&& f@[3].name@ == "instFamily"@ && is_optional_text(f@[3].value, arg.inst_family)
    }
}

/// Whether `v` writes the credentials of a login.
pub open spec fn encodes_account(v: Value, account: WsAccount) -> bool {
    v matches Value::Object(f) && f@.len() == 4 && {
        &&& is_text_entry(f@[0], "apiKey"@, account.api_key@)
        &&& is_text_entry(f@[1], "passphrase"@, account.passphrase@)
        &&& is_text_entry(f@[2], "timestamp"@, account.timestamp@)
        &&& is_text_entry(f@[3], "sign"@, account.sign@)
    }
}

/// Whether `v` writes an order: its texts, then size and price as numbers.
pub open spec fn encodes_order(v: Value, order: WsOrder) -> bool {
    v matches Value::Object(f) && f@.len() == 7 && {
        &&& is_text_entry(f@[0], "inst_id"@, order.inst_id@)
        &&& is_text_entry(f@[1], "td_mode"@, order.td_mode@)
        &&& is_text_entry(f@[2], "cl_ord_id"@, order.cl_ord_id@)
        &&& is_text_entry(f@[3], "side"@, order.side@)
        &&& is_text_entry(f@[4], "ord_type"@, order.ord_type@)
        &&& f@[5].name@ == "sz"@ && f@[5].value == Value::Number(order.sz)
        &&& f@[6].name@ == "px"@ && f@[6].value == Value::Number(order.px)
    }
}

/// Whether `v` writes a cancellation.
pub open spec fn encodes_cancel(v: Value, cancel: WsCancel) -> bool {
    v matches Value::Object(f) && f@.len() == 2 && {
        &&& is_text_entry(f@[0], "inst_id"@, cancel.inst_id@)
        &&& is_text_entry(f@[1], "cl_ord_id"@, cancel.cl_ord_id@)
    }
}

/// Whether `f` is the field `args` of a command: a list with one value for
/// each of `args`, in their order, each written as `encodes` says.
pub open spec fn encodes_args<A>(f: Field, args: Seq<A>, encodes: spec_fn(Value, A) -> bool)
    -> bool {
    f.name@ == "args"@ && (f.value matches Value::List(items) && items@.len() == args.len()
        && forall|i: int| 0 <= i < args.len() ==> encodes(#[trigger] items@[i], args[i]))
}

/// Whether `v` writes the command `cmd`: the name of its operation under
/// `op`, for an order or a cancellation the correlation id under `id`, and
/// its entries under `args`.
pub open spec fn encodes_command(v: Value, cmd: WsCommand) -> bool {
    match cmd {
        WsCommand::Login { args } => v matches Value::Object(f) && f@.len() == 2 && {
            &&& is_text_entry(f@[0], "op"@, "login"@)
            &&& encodes_args(f@[1], args@, |v: Value, a: WsAccount| encodes_account(v, a))
        },
        WsCommand::Subscribe { args } => v matches Value::Object(f) && f@.len() == 2 && {
            &&& is_text_entry(f@[0], "op"@, "subscribe"@)
            &&& encodes_args(f@[1], args@, |v: Value, a: WsChannelArg| encodes_arg(v, a))
        },
        WsCommand::Order { id, args } => v matches Value::Object(f) && f@.len() == 3 && {
            &&& is_text_entry(f@[0], "op"@, "order"@)
            &&& is_text_entry(f@[1], "id"@, id@)
            &&& encodes_args(f@[2], args@, |v: Value, a: WsOrder| encodes_order(v, a))
        },
        WsCommand::CancelOrder { id, args } => v matches Value::Object(f) && f@.len() == 3 && {
            &&& is_text_entry(f@[0], "op"@, "cancel-order"@)
            &&& is_text_entry(f@[1], "id"@, id@)
            &&& encodes_args(f@[2], args@, |v: Value, a: WsCancel| encodes_cancel(v, a))
        },
    }
}

/// A subscription that was written is read back: what is read holds the
/// same channel and the same texts.
pub proof fn lemma_arg_read_back(v: Value, arg: WsChannelArg)
    requires
        encodes_arg(v, arg),
    ensures
        arg_of(v) matches Some(read) && read@ == arg@,
{
    reveal_strlit("channel");
    reveal_strlit("instId");
    reveal_strlit("instType");
    reveal_strlit("instFamily");
    assert("channel"@ =~= seq!['c', 'h', 'a', 'n', 'n', 'e', 'l']);
    assert("instId"@ =~= seq!['i', 'n', 's', 't', 'I', 'd']);
    assert("instType"@ =~= seq!['i', 'n', 's', 't', 'T', 'y', 'p', 'e']);
    reveal_with_fuel(lookup, 5);
    arg.channel.lemma_name();
}

/// Writes a subscription.
pub fn arg_value(arg: &WsChannelArg) -> (v: Value)
    ensures
        encodes_arg(v, *arg),
{
    let mut f: Vec<Field> = Vec::new();
    f.push(text_entry("channel", arg.channel.to_str()));
    f.push(field("instId", optional_text_value(&arg.inst_id)));
    f.push(field("instType", optional_text_value(&arg.inst_type)));
    f.push(field("instFamily", optional_text_value(&arg.inst_family)));
    Value::Object(f)
}

/// Writes the credentials of a login.
pub fn account_value(account: &WsAccount) -> (v: Value)
    ensures
        encodes_account(v, *account),
{
    let mut f: Vec<Field> = Vec::new();
    f.push(text_entry("apiKey", account.api_key.as_str()));
    f.push(text_entry("passphrase", account.passphrase.as_str()));
    f.push(text_entry("timestamp", account.timestamp.as_str()));
    f.push(text_entry("sign", account.sign.as_str()));
    Value::Object(f)
}

/// Writes an order.
pub fn order_value(order: &WsOrder) -> (v: Value)
    ensures
        encodes_order(v, *order),
{
    let mut f: Vec<Field> = Vec::new();
    f.push(text_entry("inst_id", order.inst_id.as_str()));
    f.push(text_entry("td_mode", order.td_mode.as_str()));
    f.push(text_entry("cl_ord_id", order.cl_ord_id.as_str()));
    f.push(text_entry("side", order.side.as_str()));
    f.push(text_entry("ord_type", order.ord_type.as_str()));
    f.push(field("sz", Value::Number(order.sz)));
    f.push(field("px", Value::Number(order.px)));
    Value::Object(f)
}

/// Writes a cancellation.
pub fn cancel_value(cancel: &WsCancel) -> (v: Value)
    ensures
        encodes_cancel(v, *cancel),
{
    let mut f: Vec<Field> = Vec::new();
    f.push(text_entry("inst_id", cancel.inst_id.as_str()));
    f.push(text_entry("cl_ord_id", cancel.cl_ord_id.as_str()));
    Value::Object(f)
}

/// Writes the entries of a login, one value for each.
fn account_values(args: &Vec<WsAccount>) -> (items: Vec<Value>)
    ensures
        items@.len() == args@.len(),
        forall|i: int| 0 <= i < args@.len() ==> encodes_account(#[trigger] items@[i], args@[i]),
{
    let mut items: Vec<Value> = Vec::new();
    let mut i: usize = 0;
    while i < args.len()
        invariant
            i <= args@.len(),
            items@.len() == i,
            forall|j: int| 0 <= j < i ==> encodes_account(#[trigger] items@[j], args@[j]),
        decreases args@.len() - i,
    {
        items.push(account_value(&args[i]));
        i = i + 1;
    }
    items
}

/// Writes subscriptions, one value for each.
fn arg_values(args: &Vec<WsChannelArg>) -> (items: Vec<Value>)
    ensures
        items@.len() == args@.len(),
        forall|i: int| 0 <= i < args@.len() ==> encodes_arg(#[trigger] items@[i], args@[i]),
{
    let mut items: Vec<Value> = Vec::new();
    let mut i: usize = 0;
    while i < args.len()
        invariant
            i <= args@.len(),
            items@.len() == i,
            forall|j: int| 0 <= j < i ==> encodes_arg(#[trigger] items@[j], args@[j]),
        decreases args@.len() - i,
    {
        items.push(arg_value(&args[i]));
        i = i + 1;
    }
    items
}

/// Writes orders, one value for each.
fn order_values(args: &Vec<WsOrder>) -> (items: Vec<Value>)
    ensures
        items@.len() == args@.len(),
        forall|i: int| 0 <= i < args@.len() ==> encodes_order(#[trigger] items@[i], args@[i]),
{
    let mut items: Vec<Value> = Vec::new();
    let mut i: usize = 0;
    while i < args.len()
        invariant
            i <= args@.len(),
            items@.len() == i,
            forall|j: int| 0 <= j < i ==> encodes_order(#[trigger] items@[j], args@[j]),
        decreases args@.len() - i,
    {
        items.push(order_value(&args[i]));
        i = i + 1;
    }
    items
}

/// Writes cancellations, one value for each.
fn cancel_values(args: &Vec<WsCancel>) -> (items: Vec<Value>)
    ensures
        items@.len() == args@.len(),
        forall|i: int| 0 <= i < args@.len() ==> encodes_cancel(#[trigger] items@[i], args@[i]),
{
    let mut items: Vec<Value> = Vec::new();
    let mut i: usize = 0;
    while i < args.len()
        invariant
            i <= args@.len(),
            items@.len() == i,
            forall|j: int| 0 <= j < i ==> encodes_cancel(#[trigger] items@[j], args@[j]),
        decreases args@.len() - i,
    {
        items.push(cancel_value(&args[i]));
        i = i + 1;
    }
    items
}

impl WsCommand {
    /// Writes the command as a value.
    pub fn to_value(&self) -> (v: Value)
        ensures
            encodes_command(v, *self),
    {
        let mut f: Vec<Field> = Vec::new();
        match self {
            WsCommand::Login { args } => {
                f.push(text_entry("op", "login"));
                f.push(field("args", Value::List(account_values(args))));
            },
            WsCommand::Subscribe { args } => {
                f.push(text_entry("op", "subscribe"));
                f.push(field("args", Value::List(arg_values(args))));
            },
            WsCommand::Order { id, args } => {
                f.push(text_entry("op", "order"));
                f.push(text_entry("id", id.as_str()));
                f.push(field("args", Value::List(order_values(args))));
            },
            WsCommand::CancelOrder { id, args } => {
                f.push(text_entry("op", "cancel-order"));
                f.push(text_entry("id", id.as_str()));
                f.push(field("args", Value::List(cancel_values(args))));
            },
        }
        Value::Object(f)
    }
}

/// The events that one record of an account channel gives: an execution
/// report from the orders channel, a position report from the positions
/// channel, and from the balance-and-position channel one balance report
/// for each balance record; nothing for a record that cannot be read.
pub open spec fn record_events(channel: WsChannel, v: Value) -> Seq<Msg> {
    match channel {
        WsChannel::Orders => match order_of(v) {
            Ok(report) => seq![Msg::ExecutionReport(report)],
            Err(_) => Seq::empty(),
        },
        WsChannel::Positions => match position_of(v) {
            Ok(report) => seq![Msg::PositionReport(report)],
            Err(_) => Seq::empty(),
        },
        WsChannel::BalanceAndPosition => match v.list_at("balData"@) {
            Some(items) => balance_events(items),
            None => Seq::empty(),
        },
        _ => Seq::empty(),
    }
}

/// The balance reports of the balance records that can be read, in order.
pub open spec fn balance_events(items: Seq<Value>) -> Seq<Msg>
    decreases items.len(),
{
    if items.len() == 0 {
        Seq::empty()
    } else {
        balance_events(items.drop_last()) + match balance_of(items.last()) {
            Ok(report) => seq![Msg::BalanceReport(report)],
            Err(_) => Seq::empty(),
        }
    }
}

/// The events of the records of a data frame of an account channel, in order.
pub open spec fn data_events(channel: WsChannel, data: Seq<Value>) -> Seq<Msg>
    decreases data.len(),
{
    if data.len() == 0 {
        Seq::empty()
    } else {
        data_events(channel, data.drop_last()) + record_events(channel, data.last())
    }
}

/// Appends the balance reports of `items` to `out`.
fn push_balance_events(items: &Vec<Value>, out: &mut Vec<Msg>)
    ensures
        final(out)@ == old(out)@ + balance_events(items@),
{
    let mut i: usize = 0;
    while i < items.len()
        invariant
            i <= items@.len(),
            out@ == old(out)@ + balance_events(items@.take(i as int)),
        decreases items@.len() - i,
    {
        let ghost next = items@.take(i + 1);
        assert(next.drop_last() =~= items@.take(i as int));
        match parse_balance_and_position(&items[i]) {
            Ok(report) => {
                out.push(Msg::BalanceReport(report));
            },
            Err(_) => {},
        }
        i = i + 1;
    }
    assert(items@.take(items@.len() as int) =~= items@);
}

/// Appends the events of one record of an account channel to `out`.
fn push_record_events(channel: WsChannel, v: &Value, out: &mut Vec<Msg>)
    ensures
        final(out)@ == old(out)@ + record_events(channel, *v),
{
    match channel {
        WsChannel::Orders => {
            match parse_order(v) {
                Ok(report) => {
                    out.push(Msg::ExecutionReport(report));
                },
                Err(_) => {},
            }
        },
        WsChannel::Positions => {
            match parse_position(v) {
                Ok(report) => {
                    out.push(Msg::PositionReport(report));
                },
                Err(_) => {},
            }
        },
        WsChannel::BalanceAndPosition => {
            match v.get_list("balData") {
                Some(items) => {
                    push_balance_events(items, out);
                },
                None => {},
            }
        },
        _ => {},
    }
}

/// The events of a data frame of an account channel.
pub fn account_events(channel: WsChannel, data: &Vec<Value>) -> (events: Vec<Msg>)
    ensures
        events@ == data_events(channel, data@),
{
    let mut events: Vec<Msg> = Vec::new();
    let mut i: usize = 0;
    while i < data.len()
        invariant
            i <= data@.len(),
            events@ == data_events(channel, data@.take(i as int)),
        decreases data@.len() - i,
    {
        let ghost next = data@.take(i + 1);
        assert(next.drop_last() =~= data@.take(i as int));
        push_record_events(channel, &data[i], &mut events);
        i = i + 1;
    }
    assert(data@.take(data@.len() as int) =~= data@);
    events
}

/// The client of the private stream: an account and the account channels
/// that it subscribes to.
#[derive(Debug)]
pub struct PrivateClient {
    pub apikey: String,
    pub secretkey: String,
    pub passphrase: String,
    pub channels: Vec<WsChannelArg>,
}

/// Where the private client stands in its handshake.
#[derive(Debug, Copy, Clone, PartialEq, Eq, Structural)]
pub enum PrivatePhase {
    /// The login was sent and is not yet answered.
    AwaitingLogin,
    /// The login succeeded and the subscriptions were sent.
    Active,
    /// The login was refused; the client has stopped.
    Stopped,
}

/// What the private client knows while it runs: its phase, the commands
/// that it has sent and that the exchange has not yet answered, by
/// correlation id, and the last correlation id that it gave out.
pub struct SessionState {
    pub phase: PrivatePhase,
    pub orders: Map<i64, NewOrder>,
    pub cancels: Map<i64, CancelOrder>,
    pub last_id: Option<i64>,
    /// The account channels that the client subscribes to after login.
    pub channels: Seq<WsChannelArg>,
}

impl SessionState {
    /// Whether a command is pending under the correlation id `id`.
    pub open spec fn is_pending(self, id: i64) -> bool {
        self.orders.contains_key(id) || self.cancels.contains_key(id)
    }

    /// Whether every pending command has a correlation id that was given
    /// out: none lies after the last one.
    pub open spec fn wf(self) -> bool {
        forall|id: i64| #[trigger]
            self.is_pending(id) ==> (self.last_id matches Some(last) && id <= last)
    }

    /// The correlation id of a command that is sent at the second `now`:
    /// the second itself where it lies after every id given out, else the
    /// id after the last one. There is none once the last id of all was
    /// given out.
    pub open spec fn fresh_id(self, now: i64) -> Option<i64> {
        match self.last_id {
            None => Some(now),
            Some(last) => if now > last {
                Some(now)
            } else if last < i64::MAX {
                Some((last + 1) as i64)
            } else {
                None
            },
        }
    }

    /// The correlation id under which a command is sent that is taken at
    /// the second `now`: a fresh id, and none once the client has stopped.
    pub open spec fn command_id(self, now: i64) -> Option<i64> {
        if self.phase == PrivatePhase::Stopped {
            None
        } else {
            self.fresh_id(now)
        }
    }
}

/// The running private client. What is still pending when the session ends
/// is dropped with it: no event tells of a command that the exchange never
/// answered.
pub struct PrivateSession {
    channels: Vec<WsChannelArg>,
    phase: PrivatePhase,
    order_cache: HashMap<i64, NewOrder>,
    cancel_cache: HashMap<i64, CancelOrder>,
    last_id: Option<i64>,
}

/// What the private client does in answer to a frame or to a command.
#[derive(Debug)]
pub struct Reaction {
    /// The command to send, if any.
    pub send: Option<WsCommand>,
    /// The events to hand to the trading logic, in order.
    pub events: Vec<Msg>,
    /// Whether the client stops.
    pub stop: bool,
}

/// The pending orders after the frame `msg`: an answer to an order takes
/// the entry of its id away, whatever it says.
pub open spec fn orders_after(s: SessionState, msg: WsMessage) -> Map<i64, NewOrder> {
    match msg {
        WsMessage::TradeResult(res) => if res.op == WsOp::Order {
            s.orders.remove(res.id)
        } else {
            s.orders
        },
        _ => s.orders,
    }
}

/// The pending cancellations after the frame `msg`: an answer to a
/// cancellation takes the entry of its id away, whatever it says.
pub open spec fn cancels_after(s: SessionState, msg: WsMessage) -> Map<i64, CancelOrder> {
    match msg {
        WsMessage::TradeResult(res) => if res.op == WsOp::CancelOrder {
            s.cancels.remove(res.id)
        } else {
            s.cancels
        },
        _ => s.cancels,
    }
}

/// The phase after the frame `msg`: a login result decides it, and a client
/// that has stopped stays so.
pub open spec fn phase_after(s: SessionState, msg: WsMessage) -> PrivatePhase {
    if s.phase == PrivatePhase::Stopped {
        PrivatePhase::Stopped
    } else {
        match msg {
            WsMessage::LoginResult(res) => if res.is_ok() {
                PrivatePhase::Active
            } else {
                PrivatePhase::Stopped
            },
            _ => s.phase,
        }
    }
}

/// Whether the frame `msg` is answered with the subscription to the account
/// channels: it is a successful login, and the client has not stopped.
pub open spec fn subscribes_after(s: SessionState, msg: WsMessage) -> bool {
    s.phase != PrivatePhase::Stopped && (msg matches WsMessage::LoginResult(res) && res.is_ok())
}

/// The state after the frame `msg`.
pub open spec fn state_after(s: SessionState, msg: WsMessage) -> SessionState {
    SessionState {
        phase: phase_after(s, msg),
        orders: orders_after(s, msg),
        cancels: cancels_after(s, msg),
        last_id: s.last_id,
        channels: s.channels,
    }
}

/// The events that the refusal of a command gives at the time `now`: the
/// rejection of the pending command that the answer names, and nothing
/// where no such command is pending.
pub open spec fn refusal_events(s: SessionState, res: TradeResult, now: Timestamp) -> Seq<Msg> {
    match res.op {
        WsOp::Order => if s.orders.contains_key(res.id) {
            seq![Msg::ExecutionReport(ExecutionReport::rejection(s.orders[res.id], now))]
        } else {
            Seq::empty()
        },
        WsOp::CancelOrder => if s.cancels.contains_key(res.id) {
            seq![Msg::CancelReject(CancelReject::rejection(s.cancels[res.id], now))]
        } else {
            Seq::empty()
        },
    }
}

/// The events that the frame `msg`, received at `now`, gives in the state
/// `s`: those of its records for a data frame, the rejection of the command
/// for a refusal, and nothing otherwise.
pub open spec fn events_after(s: SessionState, msg: WsMessage, now: Timestamp) -> Seq<Msg> {
    match msg {
        WsMessage::Data { data, arg } => data_events(arg.channel, data@),
        WsMessage::TradeResult(res) => if res.is_ok() {
            Seq::empty()
        } else {
            refusal_events(s, res, now)
        },
        _ => Seq::empty(),
    }
}

/// The state after the command `msg` of the trading logic was taken at the
/// time `now`: an order or a cancellation is pending under the fresh
/// correlation id, which is now the last one given out. Nothing changes
/// for any other message, nor where no id is left, nor once the client has
/// stopped.
pub open spec fn state_with(s: SessionState, msg: Msg, now: Timestamp) -> SessionState {
    match s.command_id(now.secs) {
        None => s,
        Some(id) => match msg {
            Msg::NewOrder(order) => SessionState {
                orders: s.orders.insert(id, order),
                last_id: Some(id),
                ..s
            },
            Msg::CancelOrder(cancel) => SessionState {
                cancels: s.cancels.insert(id, cancel),
                last_id: Some(id),
                ..s
            },
            _ => s,
        },
    }
}

/// The events that taking the command `msg` at the time `now` gives: none
/// where the command is sent, and its rejection where it is not, because
/// the client has stopped or no correlation id is left to send it under.
pub open spec fn events_with(s: SessionState, msg: Msg, now: Timestamp) -> Seq<Msg> {
    if s.command_id(now.secs) is Some {
        Seq::empty()
    } else {
        match msg {
            Msg::NewOrder(order) => seq![
                Msg::ExecutionReport(ExecutionReport::rejection(order, now)),
            ],
            Msg::CancelOrder(cancel) => seq![
                Msg::CancelReject(CancelReject::rejection(cancel, now)),
            ],
            _ => Seq::empty(),
        }
    }
}

impl View for PrivateSession {
    type V = SessionState;

    closed spec fn view(&self) -> SessionState {
        SessionState {
            phase: self.phase,
            orders: self.order_cache@,
            cancels: self.cancel_cache@,
            last_id: self.last_id,
            channels: self.channels@,
        }
    }
}

impl PrivateClient {
    /// Starts the client at the time `timestamp`: gives the login command
    /// to send and the session that awaits its answer, with nothing pending.
    /// Without a secret key there is nothing to start.
    pub fn start(self, timestamp: &str) -> (r: Result<(PrivateSession, WsCommand), SignError>)
        requires
            byte_len(self.secretkey@) < SIGN_LIMIT,
            byte_len(timestamp@) + 21 < SIGN_LIMIT,
        ensures
            match r {
                Ok((session, cmd)) => {
                    &&& self.secretkey@.len() > 0
                    &&& is_login_command(
                        cmd,
                        self.apikey@,
                        self.passphrase@,
                        timestamp@,
                        self.secretkey@,
                    )
                    &&& session@.phase == PrivatePhase::AwaitingLogin
                    &&& session@.orders == Map::<i64, NewOrder>::empty()
                    &&& session@.cancels == Map::<i64, CancelOrder>::empty()
                    &&& session@.last_id is None
                    &&& session@.wf()
                    &&& session@.channels == self.channels@
                },
                Err(e) => self.secretkey@.len() == 0 && e == SignError::EmptySecret,
            },
    {
        proof {
            reveal_strlit("GET");
            reveal_strlit("/users/self/verify");
            reveal_strlit("");
            vstd::utf8::is_ascii_chars_encode_utf8("GET"@);
            vstd::utf8::is_ascii_chars_encode_utf8("/users/self/verify"@);
        }
        let sign = get_sign(timestamp, "GET", "/users/self/verify", "", self.secretkey.as_str())?;
        let account = WsAccount {
            api_key: self.apikey,
            passphrase: self.passphrase,
            timestamp: String::from_str(timestamp),
            sign,
        };
        let mut args: Vec<WsAccount> = Vec::new();
        args.push(account);
        let session = PrivateSession {
            channels: self.channels,
            phase: PrivatePhase::AwaitingLogin,
            order_cache: HashMap::new(),
            cancel_cache: HashMap::new(),
            last_id: None,
        };
        Ok((session, WsCommand::Login { args }))
    }
}

impl PrivateSession {
    /// The phase of the session.
    pub fn phase(&self) -> (r: PrivatePhase)
        ensures
            r == self@.phase,
    {
        self.phase
    }

    /// Whether an order is pending under the correlation id `id`.
    pub fn is_order_pending(&self, id: i64) -> (r: bool)
        ensures
            r == self@.orders.contains_key(id),
    {
        self.order_cache.contains_key(&id)
    }

    /// Whether a cancellation is pending under the correlation id `id`.
    pub fn is_cancel_pending(&self, id: i64) -> (r: bool)
        ensures
            r == self@.cancels.contains_key(id),
    {
        self.cancel_cache.contains_key(&id)
    }

    /// The correlation id of a command that is sent at the second `now`.
    pub fn mint_id(&self, now: i64) -> (r: Option<i64>)
        ensures
            r == self@.fresh_id(now),
    {
        match self.last_id {
            None => Some(now),
            Some(last) => if now > last {
                Some(now)
            } else if last < i64::MAX {
                Some(last + 1)
            } else {
                None
            },
        }
    }

    /// The correlation id under which a command is sent that is taken at
    /// the second `now`.
    pub fn command_id(&self, now: i64) -> (r: Option<i64>)
        ensures
            r == self@.command_id(now),
    {
        match self.phase {
            PrivatePhase::Stopped => None,
            _ => self.mint_id(now),
        }
    }

    /// Takes a message of the trading logic at the time `now`. An order or
    /// a cancellation gets a fresh correlation id, is kept pending under
    /// it, and the command to send is given. Once the client has stopped,
    /// or where no id is left, nothing is sent and the rejection of the
    /// command is the one event. Any other message is passed over.
    pub fn on_command(&mut self, msg: &Msg, now: Timestamp) -> (r: Reaction)
        ensures
            final(self)@ == state_with(old(self)@, *msg, now),
            old(self)@.wf() ==> final(self)@.wf(),
            r.events@ == events_with(old(self)@, *msg, now),
            r.stop == (old(self)@.phase == PrivatePhase::Stopped),
            match (*msg, old(self)@.command_id(now.secs)) {
                (Msg::NewOrder(order), Some(id)) => r.send matches Some(cmd) && is_order_command(
                    cmd,
                    order,
                    id,
                ),
                (Msg::CancelOrder(cancel), Some(id)) => r.send matches Some(cmd)
                    && is_cancel_command(cmd, cancel, id),
                _ => r.send is None,
            },
    {
        let id = self.command_id(now.secs);
        let stop = self.phase == PrivatePhase::Stopped;
        let mut events: Vec<Msg> = Vec::new();
        let send = match (msg, id) {
            (Msg::NewOrder(order), Some(id)) => {
                let cmd = order_command(order, id);
                self.order_cache.insert(id, *order);
                self.last_id = Some(id);
                Some(cmd)
            },
            (Msg::NewOrder(order), None) => {
                events.push(Msg::ExecutionReport(ExecutionReport::rejected(order, now)));
                None
            },
            (Msg::CancelOrder(cancel), Some(id)) => {
                let cmd = cancel_command(cancel, id);
                self.cancel_cache.insert(id, *cancel);
                self.last_id = Some(id);
                Some(cmd)
            },
            (Msg::CancelOrder(cancel), None) => {
                events.push(Msg::CancelReject(CancelReject::rejected(cancel, now)));
                None
            },
            _ => None,
        };
        proof {
            if old(self)@.wf() {
                lemma_wf_kept_by_command(old(self)@, *msg, now);
            }
        }
        Reaction { send, events, stop }
    }

    /// Takes the answer of the exchange to a command, received at `now`:
    /// the pending entry that the answer names is taken away, and where the
    /// answer is a refusal, the rejection of that entry is the one event.
    pub fn on_trade_result(&mut self, res: &TradeResult, now: Timestamp) -> (events: Vec<Msg>)
        ensures
            final(self)@.phase == old(self)@.phase,
            final(self)@.last_id == old(self)@.last_id,
            old(self)@.wf() ==> final(self)@.wf(),
            final(self)@.orders == orders_after(old(self)@, WsMessage::TradeResult(*res)),
            final(self)@.cancels == cancels_after(old(self)@, WsMessage::TradeResult(*res)),
            final(self)@.channels == old(self)@.channels,
            events@ == events_after(old(self)@, WsMessage::TradeResult(*res), now),
    {
        proof {
            if self@.wf() {
                lemma_wf_kept_by_frame(self@, WsMessage::TradeResult(*res));
            }
        }
        let mut events: Vec<Msg> = Vec::new();
        match res.op {
            WsOp::Order => {
                let pending = self.order_cache.remove(&res.id);
                if !res.is_ok() {
                    match pending {
                        Some(order) => {
                            events.push(
                                Msg::ExecutionReport(ExecutionReport::rejected(&order, now)),
                            );
                        },
                        None => {},
                    }
                }
            },
            WsOp::CancelOrder => {
                let pending = self.cancel_cache.remove(&res.id);
                if !res.is_ok() {
                    match pending {
                        Some(cancel) => {
                            events.push(Msg::CancelReject(CancelReject::rejected(&cancel, now)));
                        },
                        None => {},
                    }
                }
            },
        }
        events
    }

    /// Takes a frame of the exchange, received at `now`. A successful login
    /// is answered with the subscription to the account channels; a refused
    /// login stops the client; a data frame gives its events; an answer to
    /// a command is handled as `on_trade_result` says. A client that has
    /// stopped stays so and sends nothing.
    pub fn on_message(&mut self, msg: &WsMessage, now: Timestamp) -> (r: Reaction)
        ensures
            final(self)@ == state_after(old(self)@, *msg),
            old(self)@.wf() ==> final(self)@.wf(),
            r.events@ == events_after(old(self)@, *msg, now),
            r.stop == (final(self)@.phase == PrivatePhase::Stopped),
            if subscribes_after(old(self)@, *msg) {
                r.send matches Some(cmd) && is_subscribe_command(cmd, old(self)@.channels)
            } else {
                r.send is None
            },
    {
        proof {
            if self@.wf() {
                lemma_wf_kept_by_frame(self@, *msg);
            }
        }
        let stopped = self.phase == PrivatePhase::Stopped;
        match msg {
            WsMessage::LoginResult(res) => {
                if stopped {
                    Reaction { send: None, events: Vec::new(), stop: true }
                } else if res.is_ok() {
                    self.phase = PrivatePhase::Active;
                    let args = copy_args(&self.channels);
                    Reaction {
                        send: Some(WsCommand::Subscribe { args }),
                        events: Vec::new(),
                        stop: false,
                    }
                } else {
                    self.phase = PrivatePhase::Stopped;
                    Reaction { send: None, events: Vec::new(), stop: true }
                }
            },
            WsMessage::Data { data, arg } => {
                let events = account_events(arg.channel, data);
                Reaction { send: None, events, stop: stopped }
            },
            WsMessage::SubscribeResult { arg } => {
                Reaction { send: None, events: Vec::new(), stop: stopped }
            },
            WsMessage::TradeResult(res) => {
                let events = self.on_trade_result(res, now);
                Reaction { send: None, events, stop: stopped }
            },
        }
    }
}

/// A fresh correlation id lies after every id that was given out, so that
/// nothing is pending under it.
pub proof fn lemma_fresh_id_is_fresh(s: SessionState, now: i64)
    requires
        s.wf(),
        s.fresh_id(now) is Some,
    ensures
        !s.is_pending(s.fresh_id(now)->Some_0),
        s.last_id matches Some(last) ==> last < s.fresh_id(now)->Some_0,
        now <= s.fresh_id(now)->Some_0,
{
}

/// Taking a command keeps every pending command under an id that was given
/// out.
pub proof fn lemma_wf_kept_by_command(s: SessionState, msg: Msg, now: Timestamp)
    requires
        s.wf(),
    ensures
        state_with(s, msg, now).wf(),
{
    let t = state_with(s, msg, now);
    assert forall|id: i64| #[trigger] t.is_pending(id) implies (t.last_id matches Some(last) && id
        <= last) by {
        assert(s.is_pending(id) ==> (s.last_id matches Some(last) && id <= last));
    }
}

/// Taking a frame keeps every pending command under an id that was given
/// out.
pub proof fn lemma_wf_kept_by_frame(s: SessionState, msg: WsMessage)
    requires
        s.wf(),
    ensures
        state_after(s, msg).wf(),
{
    let t = state_after(s, msg);
    assert forall|id: i64| #[trigger] t.is_pending(id) implies (t.last_id matches Some(last) && id
        <= last) by {
        assert(s.is_pending(id));
    }
}

/// Every answer of the exchange to a command gives at most one event, and
/// leaves nothing pending under the id and operation that it names.
pub proof fn lemma_answer_resolves_once(s: SessionState, res: TradeResult, now: Timestamp)
    ensures
        events_after(s, WsMessage::TradeResult(res), now).len() <= 1,
        res.op == WsOp::Order ==> !state_after(s, WsMessage::TradeResult(res)).orders.contains_key(
            res.id,
        ),
        res.op == WsOp::CancelOrder ==> !state_after(
            s,
            WsMessage::TradeResult(res),
        ).cancels.contains_key(res.id),
{
}

/// After an answer to a command, a second answer that names the same id and
/// operation gives no event: no command is rejected twice.
pub proof fn lemma_second_answer_is_silent(
    s: SessionState,
    first: TradeResult,
    second: TradeResult,
    now: Timestamp,
)
    requires
        first.id == second.id,
        first.op == second.op,
    ensures
        events_after(
            state_after(s, WsMessage::TradeResult(first)),
            WsMessage::TradeResult(second),
            now,
        ) == Seq::<Msg>::empty(),
{
}

/// Taking a command gives at most one event, and an event only where the
/// command is not sent and so is not pending: a command that is rejected at
/// once is never rejected again.
pub proof fn lemma_command_resolves_once(s: SessionState, msg: Msg, now: Timestamp)
    ensures
        events_with(s, msg, now).len() <= 1,
        events_with(s, msg, now).len() == 1 ==> state_with(s, msg, now) == s,
{
}

/// Once the client has stopped it stays stopped, whatever it is given, and
/// nothing is sent: a command of the trading logic is rejected at once and
/// leaves nothing pending, and no frame is answered with a subscription.
pub proof fn lemma_stopped_sends_nothing(
    s: SessionState,
    msg: Msg,
    frame: WsMessage,
    now: Timestamp,
)
    requires
        s.phase == PrivatePhase::Stopped,
    ensures
        s.command_id(now.secs) is None,
        state_with(s, msg, now) == s,
        msg is NewOrder || msg is CancelOrder ==> events_with(s, msg, now).len() == 1,
        state_after(s, frame).phase == PrivatePhase::Stopped,
        !subscribes_after(s, frame),
{
}

/// An order that is taken at the time `sent` is alone under its correlation
/// id. Where the exchange then refuses it under that id, the one event is
/// the rejection of that order; where the exchange accepts it, there is no
/// event. Either way nothing stays pending under the id.
pub proof fn lemma_order_outcome(
    s: SessionState,
    order: NewOrder,
    sent: Timestamp,
    res: TradeResult,
    now: Timestamp,
)
    requires
        s.wf(),
        s.command_id(sent.secs) == Some(res.id),
        res.op == WsOp::Order,
    ensures
        !s.is_pending(res.id),
        ({
            let pending = state_with(s, Msg::NewOrder(order), sent);
            &&& pending.orders.contains_key(res.id) && pending.orders[res.id] == order
            &&& !pending.cancels.contains_key(res.id)
            &&& events_after(pending, WsMessage::TradeResult(res), now) == if res.is_ok() {
                Seq::<Msg>::empty()
            } else {
                seq![Msg::ExecutionReport(ExecutionReport::rejection(order, now))]
            }
            &&& !state_after(pending, WsMessage::TradeResult(res)).is_pending(res.id)
        }),
{
    lemma_fresh_id_is_fresh(s, sent.secs);
}

/// A cancellation that is taken at the time `sent` is alone under its
/// correlation id. Where the exchange then refuses it under that id, the
/// one event is the rejection of that cancellation; where the exchange
/// accepts it, there is no event. Either way nothing stays pending under
/// the id.
pub proof fn lemma_cancel_outcome(
    s: SessionState,
    cancel: CancelOrder,
    sent: Timestamp,
    res: TradeResult,
    now: Timestamp,
)
    requires
        s.wf(),
        s.command_id(sent.secs) == Some(res.id),
        res.op == WsOp::CancelOrder,
    ensures
        !s.is_pending(res.id),
        ({
            let pending = state_with(s, Msg::CancelOrder(cancel), sent);
            &&& pending.cancels.contains_key(res.id) && pending.cancels[res.id] == cancel
            &&& !pending.orders.contains_key(res.id)
            &&& events_after(pending, WsMessage::TradeResult(res), now) == if res.is_ok() {
                Seq::<Msg>::empty()
            } else {
                seq![Msg::CancelReject(CancelReject::rejection(cancel, now))]
            }
            &&& !state_after(pending, WsMessage::TradeResult(res)).is_pending(res.id)
        }),
{
    lemma_fresh_id_is_fresh(s, sent.secs);
}

/// An answer that names an id under which nothing is pending gives no event
/// and changes nothing.
pub proof fn lemma_unmatched_answer(s: SessionState, res: TradeResult, now: Timestamp)
    requires
        res.op == WsOp::Order ==> !s.orders.contains_key(res.id),
        res.op == WsOp::CancelOrder ==> !s.cancels.contains_key(res.id),
    ensures
        events_after(s, WsMessage::TradeResult(res), now) == Seq::<Msg>::empty(),
        state_after(s, WsMessage::TradeResult(res)) == s,
{
    assert(s.orders.remove(res.id) =~= s.orders || res.op != WsOp::Order);
    assert(s.cancels.remove(res.id) =~= s.cancels || res.op != WsOp::CancelOrder);
}

/// The client of the public stream: the market-data channels that it
/// subscribes to.
#[derive(Debug)]
pub struct PublicClient {
    pub channels: Vec<WsChannelArg>,
}

/// The event that one record of a market-data channel gives, received at
/// `recv_time`; nothing for a record that cannot be read or a channel that
/// carries no market data.
pub open spec fn market_event(channel: WsChannel, v: Value, recv_time: Timestamp) -> Option<
    MsgView,
> {
    match channel {
        WsChannel::Tickers => match ticker_of(v, recv_time) {
            Ok(m) => Some(MsgView::Ticker(m)),
            Err(_) => None,
        },
        WsChannel::FundingRate => match funding_rate_of(v, recv_time) {
            Ok(m) => Some(MsgView::FundingRate(m)),
            Err(_) => None,
        },
        WsChannel::OpenInterest => match open_interest_of(v, recv_time) {
            Ok(m) => Some(MsgView::OpenInterest(m)),
            Err(_) => None,
        },
        WsChannel::Books5 => match depth_of(v, recv_time) {
            Ok(m) => Some(MsgView::Depth(m)),
            Err(_) => None,
        },
        WsChannel::Trade => match trade_of(v, recv_time) {
            Ok(m) => Some(MsgView::Trade(m)),
            Err(_) => None,
        },
        _ => None,
    }
}

/// The events of the records of a market-data frame, in order.
pub open spec fn market_events(channel: WsChannel, data: Seq<Value>, recv_time: Timestamp) -> Seq<
    MsgView,
>
    decreases data.len(),
{
    if data.len() == 0 {
        Seq::empty()
    } else {
        market_events(channel, data.drop_last(), recv_time) + match market_event(
            channel,
            data.last(),
            recv_time,
        ) {
            Some(m) => seq![m],
            None => Seq::empty(),
        }
    }
}

/// The events that a frame of the public stream gives: those of its
/// records for a data frame, nothing otherwise.
pub open spec fn public_events(msg: WsMessage, recv_time: Timestamp) -> Seq<MsgView> {
    match msg {
        WsMessage::Data { data, arg } => market_events(arg.channel, data@, recv_time),
        _ => Seq::empty(),
    }
}

/// Reads the event of one record of a market-data channel.
pub fn read_market_event(channel: WsChannel, v: &Value, recv_time: Timestamp) -> (r: Option<Msg>)
    ensures
        match r {
            Some(m) => market_event(channel, *v, recv_time) == Some(m@),
            None => market_event(channel, *v, recv_time) is None,
        },
{
    match channel {
        WsChannel::Tickers => match parse_ticker(v, recv_time) {
            Ok(m) => Some(Msg::Ticker(m)),
            Err(_) => None,
        },
        WsChannel::FundingRate => match parse_funding_rate(v, recv_time) {
            Ok(m) => Some(Msg::FundingRate(m)),
            Err(_) => None,
        },
        WsChannel::OpenInterest => match parse_open_interest(v, recv_time) {
            Ok(m) => Some(Msg::OpenInterest(m)),
            Err(_) => None,
        },
        WsChannel::Books5 => match parse_books5(v, recv_time) {
            Ok(m) => Some(Msg::Depth(m)),
            Err(_) => None,
        },
        WsChannel::Trade => match parse_trade(v, recv_time) {
            Ok(m) => Some(Msg::Trade(m)),
            Err(_) => None,
        },
        _ => None,
    }
}

impl PublicClient {
    /// Starts the client: gives the one command that subscribes to all its
    /// channels.
    pub fn start(self) -> (cmd: WsCommand)
        ensures
            is_subscribe_command(cmd, self.channels@),
    {
        WsCommand::Subscribe { args: self.channels }
    }

    /// Takes a frame of the exchange, received at `recv_time`, and gives
    /// the market events of its records.
    pub fn on_message(msg: &WsMessage, recv_time: Timestamp) -> (events: Vec<Msg>)
        ensures
            msg_views(events@) == public_events(*msg, recv_time),
    {
        let mut events: Vec<Msg> = Vec::new();
        match msg {
            WsMessage::Data { data, arg } => {
                let channel = arg.channel;
                let mut i: usize = 0;
                while i < data.len()
                    invariant
                        i <= data@.len(),
                        msg_views(events@) == market_events(
                            channel,
                            data@.take(i as int),
                            recv_time,
                        ),
                    decreases data@.len() - i,
                {
                    let ghost next = data@.take(i + 1);
                    assert(next.drop_last() =~= data@.take(i as int));
                    match read_market_event(channel, &data[i], recv_time) {
                        Some(m) => {
                            events.push(m);
                        },
                        None => {},
                    }
                    i = i + 1;
                }
                assert(data@.take(data@.len() as int) =~= data@);
            },
            _ => {},
        }
        events
    }
}

} // verus!
