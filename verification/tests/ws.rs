use abraca::api::okx::value::{Field, Value};
use abraca::api::okx::ws::{
    account_events, cancel_command, copy_arg, copy_args, i64_to_string, order_command,
    read_market_event, PrivateClient, PrivatePhase, PrivateSession, PublicClient, TradeResult,
    WsChannel, WsChannelArg, WsCommand, WsEvent, WsMessage, WsOp,
};
use abraca::common::defs::{Ccy, DecodeError, Exch, Inst, InstType, OrdState, OrdType, Side, TdMode};
use abraca::common::msgs::{CancelOrder, Msg, NewOrder, Num, Timestamp};

fn to_value(v: &serde_json::Value) -> Value {
    match v {
        serde_json::Value::Null => Value::Null,
        serde_json::Value::String(s) => Value::Text {
            text: s.clone(),
            num: s.parse::<f64>().ok().map(|x| Num::from_bits(x.to_bits())),
        },
        serde_json::Value::Number(n) => match (n.as_i64(), n.as_f64()) {
            (Some(i), _) => Value::Integer(i),
            (None, Some(x)) => Value::Number(Num::from_bits(x.to_bits())),
            (None, None) => Value::Other,
        },
        serde_json::Value::Array(items) => Value::List(items.iter().map(to_value).collect()),
        serde_json::Value::Object(fields) => Value::Object(
            fields
                .iter()
                .map(|(name, value)| Field { name: name.clone(), value: to_value(value) })
                .collect(),
        ),
        serde_json::Value::Bool(_) => Value::Other,
    }
}

fn to_json(v: &Value) -> serde_json::Value {
    match v {
        Value::Null | Value::Other => serde_json::Value::Null,
        Value::Text { text, .. } => serde_json::Value::String(text.clone()),
        Value::Integer(n) => serde_json::Value::from(*n),
        Value::Number(n) => serde_json::Value::from(f64::from_bits(n.to_bits())),
        Value::Decimal(n) => serde_json::Value::String(f64::from_bits(n.to_bits()).to_string()),
        Value::List(items) => serde_json::Value::Array(items.iter().map(to_json).collect()),
        Value::Object(fields) => serde_json::Value::Object(
            fields.iter().map(|f| (f.name.clone(), to_json(&f.value))).collect(),
        ),
    }
}

fn frame(s: &str) -> Result<WsMessage, DecodeError> {
    let v: serde_json::Value = serde_json::from_str(s).unwrap();
    WsMessage::from_value(to_value(&v))
}

fn num(x: f64) -> Num {
    Num::from_bits(x.to_bits())
}

fn now() -> Timestamp {
    Timestamp { secs: 1_700_000_000, nanos: 5 }
}

fn at(secs: i64) -> Timestamp {
    Timestamp { secs, nanos: 0 }
}

fn sent_id(cmd: Option<WsCommand>) -> i64 {
    match cmd {
        Some(WsCommand::Order { id, args }) => {
            assert_eq!(args.len(), 1);
            assert_eq!(args[0].cl_ord_id, id);
            id.parse().unwrap()
        }
        Some(WsCommand::CancelOrder { id, .. }) => id.parse().unwrap(),
        _ => panic!("nothing sent"),
    }
}

fn swap() -> Inst {
    Inst { exch: Exch::Okx, base_ccy: Ccy::BTC, quote_ccy: Ccy::USD, inst_type: InstType::Swap }
}

fn order(cl_ord_id: i64) -> NewOrder {
    NewOrder {
        inst: swap(),
        cl_ord_id,
        side: Side::Buy,
        ord_type: OrdType::Limit,
        td_mode: TdMode::Cross,
        px: num(20000.5),
        sz: num(2.0),
    }
}

fn client() -> PrivateClient {
    PrivateClient {
        apikey: "key".to_string(),
        secretkey: "22582BD0CFF14C41EDBF1AB98506286D".to_string(),
        passphrase: "phrase".to_string(),
        channels: vec![WsChannelArg {
            channel: WsChannel::Orders,
            inst_id: None,
            inst_type: Some("ANY".to_string()),
            inst_family: None,
        }],
    }
}

fn session() -> PrivateSession {
    client().start("1538054050").unwrap().0
}

fn answer(id: i64, op: WsOp, code: i64, msg: &str) -> WsMessage {
    WsMessage::TradeResult(TradeResult { id, op, code, msg: msg.to_string() })
}

#[test]
fn deserialize_login_succeed_msg_works() {
    let s = r#"{
            "event": "login",
            "code": "0",
            "msg": ""
        }"#;
    let m = frame(s).unwrap();
    match m {
        WsMessage::LoginResult(res) => {
            assert!(res.is_ok());
        }
        _ => panic!("unexpected message"),
    };
}

#[test]
fn deserialize_login_failed_msg_works() {
    let s = r#"
        {
            "event": "error",
            "code": "60009",
            "msg": "Login failed."
        }"#;

    let m = frame(s).unwrap();
    match m {
        WsMessage::LoginResult(res) => {
            assert!(!res.is_ok());
        }
        _ => panic!("unexpected message"),
    };
}

#[test]
fn deserialize_subscribe_succeed_msg_works() {
    let s = r#"
        {
            "event": "subscribe",
            "arg": {
                "channel": "tickers",
                "instId": "LTC-USD-200327"
            }
        }"#;

    let m = frame(s).unwrap();
    match m {
        WsMessage::SubscribeResult { arg } => {
            assert_eq!(arg.channel, WsChannel::Tickers);
            assert_eq!(arg.inst_id.unwrap(), "LTC-USD-200327");
        }
        _ => panic!("unexpected message"),
    };
}

#[test]
fn deserialize_order_succeed_msg_works() {
    let s = r#"
        {
            "id": "1514",
            "op": "cancel-order",
            "data": [{
                "clOrdId": "",
                "ordId": "2510789768709120",
                "sCode": "0",
                "sMsg": ""
            }],
            "code": "0",
            "msg": ""
        }"#;
    let m = frame(s).unwrap();
    match m {
        WsMessage::TradeResult(res) => {
            assert!(res.is_ok());
            assert_eq!(res.id, 1514);
            assert_eq!(res.op, WsOp::CancelOrder);
        }
        _ => panic!("unexpected message"),
    };
}

#[test]
fn deserialize_order_failed_msg_works() {
    let s = r#"
        {
            "id": "1512",
            "op": "order",
            "data": [{
                "clOrdId": "",
                "ordId": "",
                "tag": "",
                "sCode": "5XXXX",
                "sMsg": "not exist"
            }],
            "code": "1",
            "msg": ""
        }"#;
    let m = frame(s).unwrap();
    match m {
        WsMessage::TradeResult(res) => {
            assert!(!res.is_ok());
            assert_eq!(res.id, 1512);
            assert_eq!(res.op, WsOp::Order);
        }
        _ => panic!("unexpected message"),
    };

    let s = r#"
        {
            "id": "1512",
            "op": "order",
            "data": [],
            "code": "60013",
            "msg": "Invalid args"
        }"#;
    let m = frame(s).unwrap();
    match m {
        WsMessage::TradeResult(res) => {
            assert!(!res.is_ok());
            assert_eq!(res.id, 1512);
            assert_eq!(res.op, WsOp::Order);
        }
        _ => panic!("unexpected message"),
    };
}

#[test]
fn deserialize_cancel_succeed_msg_works() {
    let s = r#"
        {
            "id": "1514",
            "op": "cancel-order",
            "data": [{
                "clOrdId": "",
                "ordId": "2510789768709120",
                "sCode": "0",
                "sMsg": ""
            }],
            "code": "0",
            "msg": ""
        }"#;
    let m = frame(s).unwrap();
    match m {
        WsMessage::TradeResult(res) => {
            assert!(res.is_ok());
            assert_eq!(res.id, 1514);
            assert_eq!(res.op, WsOp::CancelOrder);
        }
        _ => panic!("unexpected message"),
    };
}

#[test]
fn deserialize_cancel_failed_msg_works() {
    let s = r#"
        {
            "id": "1514",
            "op": "cancel-order",
            "data": [{
                "clOrdId": "",
                "ordId": "2510789768709120",
                "sCode": "5XXXX",
                "sMsg": "Order not exist"
            }],
            "code": "1",
            "msg": ""
        }"#;
    let m = frame(s).unwrap();
    match m {
        WsMessage::TradeResult(res) => {
            assert!(!res.is_ok());
            assert_eq!(res.id, 1514);
            assert_eq!(res.op, WsOp::CancelOrder);
        }
        _ => panic!("unexpected message"),
    };

    let s = r#"
        {
            "id": "1514",
            "op": "cancel-order",
            "data": [],
            "code": "60013",
            "msg": "Invalid args"
        }"#;
    let m = frame(s).unwrap();
    match m {
        WsMessage::TradeResult(res) => {
            assert!(!res.is_ok());
            assert_eq!(res.id, 1514);
            assert_eq!(res.op, WsOp::CancelOrder);
        }
        _ => panic!("unexpected message"),
    };
}

#[test]
fn data_frames_are_read_with_their_channel() {
    let s = r#"{"arg": {"channel": "books5", "instId": "BTC-USDT", "instType": null},
                "data": [{"a": "1"}, {"b": "2"}]}"#;
    match frame(s).unwrap() {
        WsMessage::Data { data, arg } => {
            assert_eq!(data.len(), 2);
            assert_eq!(arg.channel, WsChannel::Books5);
            assert_eq!(arg.inst_id.as_deref(), Some("BTC-USDT"));
            assert_eq!(arg.inst_type, None);
            assert_eq!(arg.inst_family, None);
        }
        _ => panic!("unexpected message"),
    }
}

#[test]
fn values_that_are_no_frames_are_refused() {
    assert!(matches!(frame("{}"), Err(DecodeError::Frame)));
    assert!(matches!(frame("[]"), Err(DecodeError::Frame)));
    assert!(matches!(frame(r#"{"event": "login", "code": "zero", "msg": ""}"#), Err(DecodeError::Frame)));
    assert!(matches!(frame(r#"{"event": "login", "code": 0, "msg": ""}"#), Err(DecodeError::Frame)));
    assert!(matches!(frame(r#"{"event": "logout", "code": "0", "msg": ""}"#), Err(DecodeError::Frame)));
    assert!(matches!(frame(r#"{"arg": {"channel": "candles"}}"#), Err(DecodeError::Frame)));
    assert!(matches!(frame(r#"{"arg": {"channel": "tickers", "instId": 5}}"#), Err(DecodeError::Frame)));
    assert!(matches!(
        frame(r#"{"id": "1", "op": "amend-order", "code": "0", "msg": ""}"#),
        Err(DecodeError::Frame)
    ));
    assert!(matches!(frame(r#"{"data": [], "arg": {"channel": "tickers"}}"#), Ok(WsMessage::Data { .. })));
    assert!(matches!(
        frame(r#"{"data": {}, "arg": {"channel": "tickers"}}"#),
        Ok(WsMessage::SubscribeResult { .. })
    ));
}

#[test]
fn channel_names_are_those_of_the_exchange() {
    let names = [
        (WsChannel::Positions, "positions"),
        (WsChannel::BalanceAndPosition, "balance_and_position"),
        (WsChannel::Orders, "orders"),
        (WsChannel::Tickers, "tickers"),
        (WsChannel::FundingRate, "funding-rate"),
        (WsChannel::OpenInterest, "open-interest"),
        (WsChannel::Books5, "books5"),
        (WsChannel::Trade, "trade"),
    ];
    for (channel, name) in names {
        assert_eq!(channel.to_str(), name);
        assert_eq!(WsChannel::from_str(name), Some(channel));
    }
    assert_eq!(WsChannel::from_str("books"), None);
    assert_eq!(WsOp::Order.to_str(), "order");
    assert_eq!(WsOp::from_str("cancel-order"), Some(WsOp::CancelOrder));
    assert_eq!(WsEvent::from_str("error"), Some(WsEvent::Error));
    assert_eq!(WsEvent::Login.to_str(), "login");
}

#[test]
fn start_gives_the_login_command() {
    let (session, cmd) = client().start("1538054050").unwrap();
    assert_eq!(session.phase(), PrivatePhase::AwaitingLogin);
    assert!(!session.is_order_pending(42));
    match cmd {
        WsCommand::Login { args } => {
            assert_eq!(args.len(), 1);
            assert_eq!(args[0].api_key, "key");
            assert_eq!(args[0].passphrase, "phrase");
            assert_eq!(args[0].timestamp, "1538054050");
            assert_eq!(args[0].sign, "+LdIr8lkkvhr5hoA3g9TMC0+uQJ849ftAcocA/ouu4M=");
        }
        _ => panic!("unexpected command"),
    }
    let mut no_secret = client();
    no_secret.secretkey = String::new();
    assert!(no_secret.start("1538054050").is_err());
}

#[test]
fn successful_login_is_answered_with_the_subscription() {
    let mut session = session();
    let reaction = session.on_message(&frame(r#"{"event": "login", "code": "0", "msg": ""}"#).unwrap(), now());
    assert_eq!(session.phase(), PrivatePhase::Active);
    assert!(!reaction.stop);
    assert!(reaction.events.is_empty());
    match reaction.send {
        Some(WsCommand::Subscribe { args }) => {
            assert_eq!(args.len(), 1);
            assert_eq!(args[0].channel, WsChannel::Orders);
            assert_eq!(args[0].inst_id, None);
            assert_eq!(args[0].inst_type.as_deref(), Some("ANY"));
        }
        _ => panic!("unexpected reaction"),
    }
}

#[test]
fn refused_login_stops_the_client() {
    let mut session = session();
    let msg = frame(r#"{"event": "error", "code": "60009", "msg": "Login failed."}"#).unwrap();
    let reaction = session.on_message(&msg, now());
    assert_eq!(session.phase(), PrivatePhase::Stopped);
    assert!(reaction.stop);
    assert!(reaction.send.is_none());
    assert!(reaction.events.is_empty());
}

#[test]
fn a_stopped_client_sends_nothing() {
    let mut session = session();
    session.on_command(&Msg::NewOrder(order(1)), at(10));
    let refused = frame(r#"{"event": "error", "code": "60009", "msg": "Login failed."}"#).unwrap();
    assert!(session.on_message(&refused, now()).stop);
    assert_eq!(session.command_id(50), None);
    assert_eq!(session.mint_id(50), Some(50));
    let taken = session.on_command(&Msg::NewOrder(order(2)), at(50));
    assert!(taken.send.is_none());
    assert!(taken.stop);
    assert!(matches!(
        taken.events[..],
        [Msg::ExecutionReport(r)] if r.cl_ord_id == 2 && r.state == OrdState::Rejected
    ));
    assert!(!session.is_order_pending(50));
    let cancel = CancelOrder { inst: swap(), cl_ord_id: 3 };
    let taken = session.on_command(&Msg::CancelOrder(cancel), at(51));
    assert!(taken.send.is_none());
    assert!(matches!(taken.events[..], [Msg::CancelReject(r)] if r.cl_ord_id == 3));
    assert!(!session.is_cancel_pending(51));
    let passed = session.on_command(&Msg::SigTerm, at(52));
    assert!(passed.send.is_none() && passed.events.is_empty() && passed.stop);
    let accepted = frame(r#"{"event": "login", "code": "0", "msg": ""}"#).unwrap();
    let reaction = session.on_message(&accepted, now());
    assert!(reaction.send.is_none());
    assert!(reaction.stop);
    assert_eq!(session.phase(), PrivatePhase::Stopped);
    let late = session.on_message(&answer(10, WsOp::Order, 1, ""), now());
    assert!(late.send.is_none() && late.stop);
    assert!(matches!(late.events[..], [Msg::ExecutionReport(r)] if r.cl_ord_id == 1));
    assert_eq!(session.phase(), PrivatePhase::Stopped);
}

#[test]
fn commands_are_sent_while_the_login_is_awaited_and_after_it() {
    let mut session = session();
    assert_eq!(session.phase(), PrivatePhase::AwaitingLogin);
    assert_eq!(session.command_id(7), Some(7));
    let early = session.on_command(&Msg::NewOrder(order(1)), at(7));
    assert!(early.send.is_some() && !early.stop);
    let accepted = frame(r#"{"event": "login", "code": "0", "msg": ""}"#).unwrap();
    assert!(!session.on_message(&accepted, now()).stop);
    assert_eq!(session.phase(), PrivatePhase::Active);
    assert_eq!(session.command_id(7), Some(8));
    let later = session.on_command(&Msg::NewOrder(order(2)), at(7));
    assert_eq!(sent_id(later.send), 8);
}

#[test]
fn order_command_names_the_order_as_the_exchange_does() {
    match order_command(&order(42), 1700000000) {
        WsCommand::Order { id, args } => {
            assert_eq!(id, "1700000000");
            assert_eq!(args.len(), 1);
            assert_eq!(args[0].inst_id, "BTC-USD-SWAP");
            assert_eq!(args[0].td_mode, "cross");
            assert_eq!(args[0].cl_ord_id, "1700000000");
            assert_eq!(args[0].side, "buy");
            assert_eq!(args[0].ord_type, "limit");
            assert_eq!(args[0].sz, num(2.0));
            assert_eq!(args[0].px, num(20000.5));
        }
        _ => panic!("unexpected command"),
    }
    match cancel_command(&CancelOrder { inst: swap(), cl_ord_id: 42 }, -7) {
        WsCommand::CancelOrder { id, args } => {
            assert_eq!(id, "-7");
            assert_eq!(args.len(), 1);
            assert_eq!(args[0].inst_id, "BTC-USD-SWAP");
            assert_eq!(args[0].cl_ord_id, "42");
        }
        _ => panic!("unexpected command"),
    }
}

#[test]
fn refused_order_gives_exactly_one_rejection() {
    let mut session = session();
    let taken = session.on_command(&Msg::NewOrder(order(42)), at(42));
    assert!(taken.events.is_empty());
    assert!(!taken.stop);
    assert!(matches!(taken.send, Some(WsCommand::Order { .. })));
    assert_eq!(sent_id(taken.send), 42);
    assert!(session.is_order_pending(42));
    let msg = frame(r#"{"id": "42", "op": "order", "code": "1", "msg": "insufficient balance", "data": []}"#)
        .unwrap();
    let reaction = session.on_message(&msg, now());
    assert!(reaction.send.is_none());
    assert!(!reaction.stop);
    assert_eq!(reaction.events.len(), 1);
    match reaction.events[0] {
        Msg::ExecutionReport(report) => {
            assert_eq!(report.state, OrdState::Rejected);
            assert_eq!(report.cl_ord_id, 42);
            assert_eq!(report.inst, swap());
            assert_eq!(report.side, Side::Buy);
            assert_eq!(report.ord_type, OrdType::Limit);
            assert_eq!(report.px, num(20000.5));
            assert_eq!(report.sz, num(2.0));
            assert_eq!(report.c_time, now());
            assert_eq!(report.u_time, now());
            assert_eq!(report.ord_id, 0);
            for zero in [
                report.notional_usd,
                report.fill_px,
                report.fill_sz,
                report.acc_fill_sz,
                report.avg_px,
                report.lever,
                report.fee,
            ] {
                assert_eq!(f64::from_bits(zero.to_bits()), 0.0);
            }
        }
        _ => panic!("unexpected event"),
    }
    assert!(!session.is_order_pending(42));
    let again = session.on_message(&msg, now());
    assert!(again.events.is_empty());
}

#[test]
fn accepted_order_gives_no_event() {
    let mut session = session();
    session.on_command(&Msg::NewOrder(order(42)), at(42));
    let msg = frame(r#"{"id": "42", "op": "order", "code": "0", "msg": "", "data": []}"#).unwrap();
    let reaction = session.on_message(&msg, now());
    assert!(reaction.events.is_empty());
    assert!(reaction.send.is_none());
    assert!(!session.is_order_pending(42));
    let report = frame(
        r#"{"arg": {"channel": "orders", "instType": "ANY"}, "data": [{
            "accFillSz": "2", "avgPx": "20000", "cTime": "1", "clOrdId": "42", "fee": "0",
            "fillPx": "20000", "fillSz": "2", "instId": "BTC-USD-SWAP", "lever": "1",
            "notionalUsd": "40000", "ordId": "9", "ordType": "limit", "px": "20000.5",
            "side": "buy", "state": "filled", "sz": "2", "uTime": "2"}]}"#,
    )
    .unwrap();
    let reaction = session.on_message(&report, now());
    assert_eq!(reaction.events.len(), 1);
    match reaction.events[0] {
        Msg::ExecutionReport(report) => {
            assert_eq!(report.state, OrdState::Filled);
            assert_eq!(report.cl_ord_id, 42);
            assert_eq!(report.ord_id, 9);
        }
        _ => panic!("unexpected event"),
    }
}

#[test]
fn refused_cancel_gives_exactly_one_cancel_reject() {
    let mut session = session();
    let cancel = CancelOrder { inst: swap(), cl_ord_id: 7 };
    let taken = session.on_command(&Msg::CancelOrder(cancel), at(1514));
    assert!(taken.events.is_empty());
    assert!(matches!(taken.send, Some(WsCommand::CancelOrder { .. })));
    assert!(session.is_cancel_pending(1514));
    assert!(!session.is_order_pending(1514));
    let reaction = session.on_message(&answer(1514, WsOp::CancelOrder, 1, "Order not exist"), now());
    assert_eq!(reaction.events.len(), 1);
    match reaction.events[0] {
        Msg::CancelReject(reject) => {
            assert_eq!(reject.cl_ord_id, 7);
            assert_eq!(reject.inst, swap());
            assert_eq!(reject.u_time, now());
        }
        _ => panic!("unexpected event"),
    }
    assert!(!session.is_cancel_pending(1514));
    assert!(session.on_message(&answer(1514, WsOp::CancelOrder, 1, ""), now()).events.is_empty());
}

#[test]
fn accepted_cancel_is_taken_away_without_event() {
    let mut session = session();
    session.on_command(&Msg::CancelOrder(CancelOrder { inst: swap(), cl_ord_id: 7 }), at(1514));
    let reaction = session.on_message(&answer(1514, WsOp::CancelOrder, 0, ""), now());
    assert!(reaction.events.is_empty());
    assert!(!session.is_cancel_pending(1514));
}

#[test]
fn unmatched_answers_are_passed_over() {
    let mut session = session();
    session.on_command(&Msg::NewOrder(order(1)), at(10));
    for msg in [
        answer(11, WsOp::Order, 1, "no such id"),
        answer(10, WsOp::CancelOrder, 1, "an order is pending there, no cancellation"),
        answer(11, WsOp::Order, 0, ""),
    ] {
        let reaction = session.on_message(&msg, now());
        assert!(reaction.events.is_empty());
        assert!(reaction.send.is_none());
        assert!(!reaction.stop);
        assert!(session.is_order_pending(10));
    }
}

#[test]
fn commands_of_one_second_get_ids_of_their_own() {
    let mut session = session();
    assert_eq!(session.mint_id(10), Some(10));
    let first = sent_id(session.on_command(&Msg::NewOrder(order(1)), at(10)).send);
    assert_eq!(session.mint_id(10), Some(11));
    let second = sent_id(session.on_command(&Msg::NewOrder(order(2)), at(10)).send);
    let cancel = CancelOrder { inst: swap(), cl_ord_id: 1 };
    let third = sent_id(session.on_command(&Msg::CancelOrder(cancel), at(9)).send);
    let fourth = sent_id(session.on_command(&Msg::NewOrder(order(4)), at(20)).send);
    assert_eq!((first, second, third, fourth), (10, 11, 12, 20));
    assert!(session.is_order_pending(10) && session.is_order_pending(11));
    assert!(session.is_cancel_pending(12) && !session.is_order_pending(12));
    let reaction = session.on_message(&answer(10, WsOp::Order, 1, ""), now());
    assert!(matches!(reaction.events[..], [Msg::ExecutionReport(r)] if r.cl_ord_id == 1));
    let reaction = session.on_message(&answer(11, WsOp::Order, 1, ""), now());
    assert!(matches!(reaction.events[..], [Msg::ExecutionReport(r)] if r.cl_ord_id == 2));
    let reaction = session.on_message(&answer(12, WsOp::CancelOrder, 1, ""), now());
    assert!(matches!(reaction.events[..], [Msg::CancelReject(r)] if r.cl_ord_id == 1));
    assert_eq!(session.mint_id(0), Some(21));
}

#[test]
fn a_command_without_an_id_left_is_rejected_at_once() {
    let mut session = session();
    let last = session.on_command(&Msg::NewOrder(order(1)), at(i64::MAX));
    assert_eq!(sent_id(last.send), i64::MAX);
    assert_eq!(session.mint_id(5), None);
    let refused = session.on_command(&Msg::NewOrder(order(2)), at(5));
    assert!(refused.send.is_none());
    assert!(!refused.stop);
    assert_eq!(refused.events.len(), 1);
    match refused.events[0] {
        Msg::ExecutionReport(report) => {
            assert_eq!(report.state, OrdState::Rejected);
            assert_eq!(report.cl_ord_id, 2);
            assert_eq!(report.u_time, at(5));
        }
        _ => panic!("unexpected event"),
    }
    let cancel = CancelOrder { inst: swap(), cl_ord_id: 3 };
    let refused = session.on_command(&Msg::CancelOrder(cancel), at(5));
    assert!(refused.send.is_none());
    assert!(matches!(refused.events[..], [Msg::CancelReject(r)] if r.cl_ord_id == 3));
    assert!(session.is_order_pending(i64::MAX));
    let passed = session.on_command(&Msg::SigTerm, at(5));
    assert!(passed.send.is_none() && passed.events.is_empty());
}

#[test]
fn messages_that_are_no_commands_are_passed_over() {
    let mut session = session();
    let reaction = session.on_command(&Msg::SigTerm, at(5));
    assert!(reaction.send.is_none());
    assert!(reaction.events.is_empty());
    assert!(!reaction.stop);
    assert!(!session.is_order_pending(5));
    assert!(!session.is_cancel_pending(5));
    assert_eq!(session.mint_id(5), Some(5));
}

#[test]
fn account_frames_give_their_events_in_order() {
    let mut session = session();
    let balances = frame(
        r#"{"arg": {"channel": "balance_and_position"}, "data": [
            {"balData": [{"cashBal": "1.5", "ccy": "BTC", "uTime": "1000"},
                         {"cashBal": "oops", "ccy": "ETH", "uTime": "1000"},
                         {"cashBal": "2.5", "ccy": "USDT", "uTime": "2000"}]},
            {"posData": []},
            {"balData": [{"cashBal": "3", "ccy": "ETH", "uTime": "3000"}]}]}"#,
    )
    .unwrap();
    let events = session.on_message(&balances, now()).events;
    let seen: Vec<(Ccy, f64, i64)> = events
        .iter()
        .map(|m| match m {
            Msg::BalanceReport(b) => (b.ccy, f64::from_bits(b.cash_bal.to_bits()), b.u_time.secs),
            _ => panic!("unexpected event"),
        })
        .collect();
    assert_eq!(seen, vec![(Ccy::BTC, 1.5, 1), (Ccy::USDT, 2.5, 2), (Ccy::ETH, 3.0, 3)]);
    let positions = frame(
        r#"{"arg": {"channel": "positions", "instType": "ANY"}, "data": [
            {"avgPx": "1", "ccy": "USDT", "instId": "BTC-USD-SWAP", "mgnMode": "cross",
             "pos": "4", "posCcy": "BTC", "uTime": "1"},
            {"avgPx": "1"}]}"#,
    )
    .unwrap();
    let events = session.on_message(&positions, now()).events;
    assert_eq!(events.len(), 1);
    assert!(matches!(events[0], Msg::PositionReport(p) if p.inst == swap()));
    let tickers = frame(r#"{"arg": {"channel": "tickers"}, "data": [{"instId": "BTC-USDT"}]}"#).unwrap();
    assert!(session.on_message(&tickers, now()).events.is_empty());
}

#[test]
fn public_client_subscribes_and_gives_market_events() {
    let channels = vec![WsChannelArg {
        channel: WsChannel::Trade,
        inst_id: Some("BTC-USDT".to_string()),
        inst_type: None,
        inst_family: None,
    }];
    match (PublicClient { channels }).start() {
        WsCommand::Subscribe { args } => {
            assert_eq!(args.len(), 1);
            assert_eq!(args[0].channel, WsChannel::Trade);
            assert_eq!(args[0].inst_id.as_deref(), Some("BTC-USDT"));
        }
        _ => panic!("unexpected command"),
    }
    let trades = frame(
        r#"{"arg": {"channel": "trade", "instId": "BTC-USDT"}, "data": [
            {"instId": "BTC-USDT", "px": "1", "sz": "2", "side": "buy", "ts": "1000"},
            {"instId": "BTC-USDT", "px": "1", "sz": "2", "side": "hold", "ts": "2000"},
            {"instId": "BTC-USDT", "px": "3", "sz": "4", "side": "sell", "ts": "3000"}]}"#,
    )
    .unwrap();
    let events = PublicClient::on_message(&trades, now());
    let seen: Vec<(Side, i64)> = events
        .iter()
        .map(|m| match m {
            Msg::Trade(t) => (t.side, t.exch_time.secs),
            _ => panic!("unexpected event"),
        })
        .collect();
    assert_eq!(seen, vec![(Side::Buy, 1), (Side::Sell, 3)]);
    let books = frame(
        r#"{"arg": {"channel": "books5", "instId": "BTC-USDT"}, "data": [
            {"asks": [["1", "2"]], "bids": [], "instId": "BTC-USDT", "ts": "1"}]}"#,
    )
    .unwrap();
    let events = PublicClient::on_message(&books, now());
    assert_eq!(events.len(), 1);
    assert!(matches!(events[0], Msg::Depth(d) if d.asks[0] == (num(1.0), num(2.0)) && d.asks[1] == (num(0.0), num(0.0))));
    let orders = frame(r#"{"arg": {"channel": "orders"}, "data": [{}]}"#).unwrap();
    assert!(PublicClient::on_message(&orders, now()).is_empty());
    let ack = frame(r#"{"event": "subscribe", "arg": {"channel": "trade"}}"#).unwrap();
    assert!(PublicClient::on_message(&ack, now()).is_empty());
}

#[test]
fn subscriptions_are_copied_whole() {
    let arg = WsChannelArg {
        channel: WsChannel::FundingRate,
        inst_id: Some("BTC-USD-SWAP".to_string()),
        inst_type: None,
        inst_family: Some("BTC-USD".to_string()),
    };
    let copy = copy_arg(&arg);
    assert_eq!(copy.channel, WsChannel::FundingRate);
    assert_eq!(copy.inst_id, arg.inst_id);
    assert_eq!(copy.inst_type, None);
    assert_eq!(copy.inst_family, arg.inst_family);
    let copies = copy_args(&client().channels);
    assert_eq!(copies.len(), 1);
    assert_eq!(copies[0].channel, WsChannel::Orders);
    assert_eq!(copies[0].inst_type.as_deref(), Some("ANY"));
    assert!(copy_args(&Vec::new()).is_empty());
}

#[test]
fn ids_are_written_in_decimal() {
    assert_eq!(i64_to_string(0), "0");
    assert_eq!(i64_to_string(1700000000), "1700000000");
    assert_eq!(i64_to_string(-15), "-15");
    assert_eq!(i64_to_string(i64::MIN), "-9223372036854775808");
}

#[test]
fn events_are_read_by_channel() {
    let record = |s: &str| {
        let v: serde_json::Value = serde_json::from_str(s).unwrap();
        to_value(&v)
    };
    let trade = record(r#"{"instId": "BTC-USDT", "px": "1", "sz": "2", "side": "buy", "ts": "1000"}"#);
    assert!(matches!(read_market_event(WsChannel::Trade, &trade, now()), Some(Msg::Trade(_))));
    assert!(read_market_event(WsChannel::Tickers, &trade, now()).is_none());
    assert!(read_market_event(WsChannel::Books5, &trade, now()).is_none());
    assert!(read_market_event(WsChannel::Orders, &trade, now()).is_none());
    let interest = record(r#"{"instId": "BTC-USD-SWAP", "oi": "5", "oiCcy": "6", "ts": "1"}"#);
    assert!(matches!(
        read_market_event(WsChannel::OpenInterest, &interest, now()),
        Some(Msg::OpenInterest(m)) if m.oi == num(5.0) && m.recv_time == now()
    ));
    let balance = record(r#"{"balData": [{"cashBal": "1", "ccy": "BTC", "uTime": "1"}]}"#);
    assert_eq!(account_events(WsChannel::BalanceAndPosition, &vec![balance]).len(), 1);
    let balance = record(r#"{"balData": [{"cashBal": "1", "ccy": "BTC", "uTime": "1"}]}"#);
    assert!(account_events(WsChannel::Orders, &vec![balance]).is_empty());
    assert!(account_events(WsChannel::Positions, &Vec::new()).is_empty());
}

#[test]
fn commands_are_written_as_the_exchange_reads_them() {
    let json = |s: &str| -> serde_json::Value { serde_json::from_str(s).unwrap() };
    let (_, login) = client().start("1538054050").unwrap();
    assert_eq!(
        to_json(&login.to_value()),
        json(
            r#"{"op": "login", "args": [{"apiKey": "key", "passphrase": "phrase",
                "timestamp": "1538054050",
                "sign": "+LdIr8lkkvhr5hoA3g9TMC0+uQJ849ftAcocA/ouu4M="}]}"#
        )
    );
    let subscribe = (PublicClient {
        channels: vec![
            WsChannelArg {
                channel: WsChannel::Books5,
                inst_id: Some("BTC-USDT".to_string()),
                inst_type: None,
                inst_family: None,
            },
            WsChannelArg {
                channel: WsChannel::Orders,
                inst_id: None,
                inst_type: Some("ANY".to_string()),
                inst_family: Some("BTC-USD".to_string()),
            },
        ],
    })
    .start();
    assert_eq!(
        to_json(&subscribe.to_value()),
        json(
            r#"{"op": "subscribe", "args": [
                {"channel": "books5", "instId": "BTC-USDT", "instType": null, "instFamily": null},
                {"channel": "orders", "instId": null, "instType": "ANY", "instFamily": "BTC-USD"}]}"#
        )
    );
    assert_eq!(
        to_json(&order_command(&order(42), 7).to_value()),
        json(
            r#"{"op": "order", "id": "7", "args": [{"inst_id": "BTC-USD-SWAP", "td_mode": "cross",
                "cl_ord_id": "7", "side": "buy", "ord_type": "limit", "sz": 2.0, "px": 20000.5}]}"#
        )
    );
    assert_eq!(
        to_json(&cancel_command(&CancelOrder { inst: swap(), cl_ord_id: 42 }, 8).to_value()),
        json(
            r#"{"op": "cancel-order", "id": "8",
                "args": [{"inst_id": "BTC-USD-SWAP", "cl_ord_id": "42"}]}"#
        )
    );
    match order_command(&order(42), 7).to_value() {
        Value::Object(fields) => {
            let names: Vec<&str> = fields.iter().map(|f| f.name.as_str()).collect();
            assert_eq!(names, vec!["op", "id", "args"]);
        }
        _ => panic!("no object"),
    }
    let empty = WsCommand::Subscribe { args: Vec::new() };
    assert_eq!(to_json(&empty.to_value()), json(r#"{"op": "subscribe", "args": []}"#));
}

#[test]
fn written_subscriptions_are_read_back() {
    let arg = WsChannelArg {
        channel: WsChannel::FundingRate,
        inst_id: Some("BTC-USD-SWAP".to_string()),
        inst_type: None,
        inst_family: None,
    };
    let frame = Value::Object(vec![
        Field { name: "event".to_string(), value: Value::Text { text: "subscribe".to_string(), num: None } },
        Field { name: "arg".to_string(), value: abraca::api::okx::ws::arg_value(&arg) },
    ]);
    match WsMessage::from_value(frame) {
        Ok(WsMessage::SubscribeResult { arg: read }) => {
            assert_eq!(read.channel, WsChannel::FundingRate);
            assert_eq!(read.inst_id, arg.inst_id);
            assert_eq!(read.inst_type, None);
            assert_eq!(read.inst_family, None);
        }
        _ => panic!("unexpected message"),
    }
}
