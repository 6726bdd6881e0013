//! The order gateway over signed HTTP requests: what a request holds, how
//! the exchange's answer is judged, and what a failed request gives.
use crate::api::okx::parser::{
    inst_to_str, ord_type_name, ord_type_to_str, side_name, side_to_str, td_mode_name,
    td_mode_to_str, wire_encode,
};
use crate::api::okx::sign::{byte_len, get_sign, signature, SignError, SIGN_LIMIT};
use crate::api::okx::value::{field, is_text_entry, text_entry, Field, Value};
use crate::common::msgs::{CancelOrder, CancelReject, ExecutionReport, Msg, NewOrder, Timestamp};
use crate::text::str_eq;
use vstd::prelude::*;
use vstd::string::StringExecFns;

verus! {

/// The address of the exchange.
pub const REST_URL: &'static str = "https://www.okx.com";

/// The path that orders and cancellations are posted to.
pub const ORDER_PATH: &'static str = "/api/v5/trade/order";

/// The credentials of an account.
#[derive(Debug)]
pub struct OkxCredential {
    pub apikey: String,
    pub secretkey: String,
    pub passphrase: String,
}

/// The order gateway of an account.
#[derive(Debug)]
pub struct RestClient {
    pub apikey: String,
    pub secretkey: String,
    pub passphrase: String,
}

/// A header of a request: its name and its value.
#[derive(Debug)]
pub struct Header {
    pub name: String,
    pub value: String,
}

/// Why a request failed.
#[derive(Debug)]
pub enum GatewayError {
    /// The exchange refused the request or the order, with this message.
    Refused { message: String },
    /// The answer of the exchange lacks what was to be read from it.
    Malformed,
    /// The request did not reach the exchange, or its answer did not come
    /// back, for this reason.
    Transport { message: String },
    /// The request could not be signed.
    Unsigned,
}

/// The judgement of the first entry of an answer: success where its code
/// under `sCode` is `0`, else a refusal with its message under `sMsg`.
pub open spec fn entry_outcome(entry: Value) -> Result<(), GatewayError> {
    match entry.text_at("sCode"@) {
        None => Err(GatewayError::Malformed),
        Some(s_code) => if s_code == "0"@ {
            Ok(())
        } else {
            match entry.string_at("sMsg"@) {
                Some(message) => Err(GatewayError::Refused { message }),
                None => Err(GatewayError::Malformed),
            }
        },
    }
}

/// The judgement of an answer of the exchange. A code under `code` other
/// than `0` is a refusal with the message under `msg`. With the code `0`
/// the first entry of the list under `data` decides.
pub open spec fn response_outcome(v: Value) -> Result<(), GatewayError> {
    match v.text_at("code"@) {
        None => Err(GatewayError::Malformed),
        Some(code) => if code != "0"@ {
            match v.string_at("msg"@) {
                Some(message) => Err(GatewayError::Refused { message }),
                None => Err(GatewayError::Malformed),
            }
        } else {
            match v.list_at("data"@) {
                None => Err(GatewayError::Malformed),
                Some(entries) => if entries.len() == 0 {
                    Err(GatewayError::Malformed)
                } else {
                    entry_outcome(entries[0])
                },
            }
        },
    }
}

/// Whether `v` is the body of the request that places `order`: the
/// order's instrument, trade mode, side and type as the exchange names
/// them, then its price and its size, written as texts.
pub open spec fn encodes_order_request(v: Value, order: NewOrder) -> bool {
    v matches Value::Object(f) && f@.len() == 6 && {
        &&& is_text_entry(f@[0], "instId"@, wire_encode(order.inst))
        &&& is_text_entry(f@[1], "tdMode"@, td_mode_name(order.td_mode))
        &&& is_text_entry(f@[2], "side"@, side_name(order.side))
        &&& is_text_entry(f@[3], "ordType"@, ord_type_name(order.ord_type))
        &&& f@[4].name@ == "px"@ && f@[4].value == Value::Decimal(order.px)
        &&& f@[5].name@ == "sz"@ && f@[5].value == Value::Decimal(order.sz)
    }
}

/// Whether `v` is the body of the request that sends `cancel`: the client
/// order id and the instrument of the order to cancel.
pub open spec fn encodes_cancel_request(v: Value, cancel: CancelOrder) -> bool {
    v matches Value::Object(f) && f@.len() == 2 && {
        &&& f@[0].name@ == "clOrdId"@ && f@[0].value == Value::Integer(cancel.cl_ord_id)
        &&& is_text_entry(f@[1], "instId"@, wire_encode(cancel.inst))
    }
}

/// What a failed request gives at the time `now`: the rejection of the
/// order or of the cancellation that was to be sent. A request that
/// succeeded gives nothing, and so does a message that is no command.
pub open spec fn outcome_event(msg: Msg, failed: bool, now: Timestamp) -> Option<Msg> {
    if !failed {
        None
    } else {
        match msg {
            Msg::NewOrder(order) => Some(
                Msg::ExecutionReport(ExecutionReport::rejection(order, now)),
            ),
            Msg::CancelOrder(cancel) => Some(
                Msg::CancelReject(CancelReject::rejection(cancel, now)),
            ),
            _ => None,
        }
    }
}

/// Whether `headers` are the headers of a request signed at the time `ts`:
/// the content type, the key, the signature of a `POST` of `body` to
/// `path`, the time and the passphrase, in this order.
pub open spec fn are_headers(
    headers: Seq<Header>,
    client: RestClient,
    ts: Seq<char>,
    path: Seq<char>,
    body: Seq<char>,
) -> bool {
    &&& headers.len() == 5
    &&& headers[0].name@ == "Content-Type"@
    &&& headers[0].value@ == "application/json"@
    &&& headers[1].name@ == "OK-ACCESS-KEY"@
    &&& headers[1].value@ == client.apikey@
    &&& headers[2].name@ == "OK-ACCESS-SIGN"@
    &&& headers[2].value@ == signature(ts, "POST"@, path, body, client.secretkey@)
    &&& headers[3].name@ == "OK-ACCESS-TIMESTAMP"@
    &&& headers[3].value@ == ts
    &&& headers[4].name@ == "OK-ACCESS-PASSPHRASE"@
    &&& headers[4].value@ == client.passphrase@
}

impl RestClient {
    /// The gateway of the account with the credentials `credential`.
    pub fn new(credential: &OkxCredential) -> (r: RestClient)
        ensures
            r.apikey == credential.apikey,
            r.secretkey == credential.secretkey,
            r.passphrase == credential.passphrase,
    {
        RestClient {
            apikey: credential.apikey.clone(),
            secretkey: credential.secretkey.clone(),
            passphrase: credential.passphrase.clone(),
        }
    }

    /// The headers of a `POST` of `body` to `path`, signed at the time
    /// `ts`. Without a secret key nothing is signed.
    pub fn get_headers(&self, ts: &str, path: &str, body: &str) -> (r: Result<
        Vec<Header>,
        SignError,
    >)
        requires
            byte_len(self.secretkey@) < SIGN_LIMIT,
            byte_len(ts@) + byte_len(path@) + byte_len(body@) + 4 < SIGN_LIMIT,
        ensures
            match r {
                Ok(headers) => self.secretkey@.len() > 0 && are_headers(
                    headers@,
                    *self,
                    ts@,
                    path@,
                    body@,
                ),
                Err(e) => self.secretkey@.len() == 0 && e == SignError::EmptySecret,
            },
    {
        proof {
            reveal_strlit("POST");
            vstd::utf8::is_ascii_chars_encode_utf8("POST"@);
        }
        let sign = get_sign(ts, "POST", path, body, self.secretkey.as_str())?;
        let mut headers: Vec<Header> = Vec::new();
        headers.push(
            Header {
                name: String::from_str("Content-Type"),
                value: String::from_str("application/json"),
            },
        );
        headers.push(
            Header { name: String::from_str("OK-ACCESS-KEY"), value: self.apikey.clone() },
        );
        headers.push(Header { name: String::from_str("OK-ACCESS-SIGN"), value: sign });
        headers.push(
            Header { name: String::from_str("OK-ACCESS-TIMESTAMP"), value: String::from_str(ts) },
        );
        headers.push(
            Header {
                name: String::from_str("OK-ACCESS-PASSPHRASE"),
                value: self.passphrase.clone(),
            },
        );
        Ok(headers)
    }

    /// The body of the request that places `order`.
    pub fn order_request(order: &NewOrder) -> (v: Value)
        ensures
            encodes_order_request(v, *order),
    {
        let inst_id = inst_to_str(&order.inst);
        let mut f: Vec<Field> = Vec::new();
        f.push(text_entry("instId", inst_id.as_str()));
        f.push(text_entry("tdMode", td_mode_to_str(&order.td_mode)));
        f.push(text_entry("side", side_to_str(&order.side)));
        f.push(text_entry("ordType", ord_type_to_str(&order.ord_type)));
        f.push(field("px", Value::Decimal(order.px)));
        f.push(field("sz", Value::Decimal(order.sz)));
        Value::Object(f)
    }

    /// The body of the request that sends `cancel`.
    pub fn cancel_request(cancel: &CancelOrder) -> (v: Value)
        ensures
            encodes_cancel_request(v, *cancel),
    {
        let inst_id = inst_to_str(&cancel.inst);
        let mut f: Vec<Field> = Vec::new();
        f.push(field("clOrdId", Value::Integer(cancel.cl_ord_id)));
        f.push(text_entry("instId", inst_id.as_str()));
        Value::Object(f)
    }

    /// Judges the exchange's answer to a request. The request succeeded
    /// where the answer's code and the code of its first entry are both
    /// `0`; else it failed, with the message that goes with the code that
    /// is not `0`.
    pub fn check_response(v: &Value) -> (r: Result<(), GatewayError>)
        ensures
            r == response_outcome(*v),
    {
        let code = match v.get_text("code") {
            Some(code) => code,
            None => { return Err(GatewayError::Malformed); },
        };
        if !str_eq(code, "0") {
            return match v.get_string("msg") {
                Some(message) => Err(GatewayError::Refused { message }),
                None => Err(GatewayError::Malformed),
            };
        }
        let entries = match v.get_list("data") {
            Some(entries) => entries,
            None => { return Err(GatewayError::Malformed); },
        };
        if entries.len() == 0 {
            return Err(GatewayError::Malformed);
        }
        let entry = &entries[0];
        let s_code = match entry.get_text("sCode") {
            Some(s_code) => s_code,
            None => { return Err(GatewayError::Malformed); },
        };
        if str_eq(s_code, "0") {
            Ok(())
        } else {
            match entry.get_string("sMsg") {
                Some(message) => Err(GatewayError::Refused { message }),
                None => Err(GatewayError::Malformed),
            }
        }
    }

    /// One turn of the gateway: given the command that was posted and
    /// whether the request failed, gives the event for the trading logic.
    pub fn run(msg: &Msg, outcome: &Result<(), GatewayError>, now: Timestamp) -> (r: Option<Msg>)
        ensures
            r == outcome_event(*msg, outcome is Err, now),
    {
        if outcome.is_ok() {
            return None;
        }
        match msg {
            Msg::NewOrder(order) => Some(
                Msg::ExecutionReport(ExecutionReport::rejected(order, now)),
            ),
            Msg::CancelOrder(cancel) => Some(
                Msg::CancelReject(CancelReject::rejected(cancel, now)),
            ),
            _ => None,
        }
    }
}

} // verus!
