//! The vocabulary of the trading model: order attributes, exchanges,
//! currencies, expiry dates and instruments, with the dotted text form of an
//! instrument.
use crate::text::{
    all_digits, chars_eq_str, chars_of, digit_char, digit_str, digits_value, free_of, is_digit,
    lemma_parse_to_decimal, lemma_split_four, lemma_split_single, lemma_split_two,
    lemma_to_decimal_free_of, parse_i64, parse_i64_spec, push_i64, split, split_chars, to_decimal,
};
use chrono::Datelike;
use vstd::prelude::*;
use vstd::string::StringExecFns;

verus! {

/// Direction of an order or a trade.
#[derive(Debug, Copy, Clone, PartialEq, Eq, Structural)]
pub enum Side {
    Buy,
    Sell,
}

/// How an order is matched.
#[derive(Debug, Copy, Clone, PartialEq, Eq, Structural)]
pub enum OrdType {
    Market,
    Limit,
    PostOnly,
    Fok,
    Ioc,
}

/// Margin arrangement under which an order trades.
#[derive(Debug, Copy, Clone, PartialEq, Eq, Structural)]
pub enum TdMode {
    Isolated,
    Cross,
    Cash,
}

/// Margin arrangement of a position.
#[derive(Debug, Copy, Clone, PartialEq, Eq, Structural)]
pub enum MgnMode {
    Isolated,
    Cross,
    Cash,
}

/// Whether a fill removed or provided liquidity.
#[derive(Debug, Copy, Clone, PartialEq, Eq, Structural)]
pub enum ExecType {
    Taker,
    Maker,
}

/// Life-cycle state of an order.
#[derive(Debug, Copy, Clone, PartialEq, Eq, Structural)]
pub enum OrdState {
    Unknwon,
    Live,
    PartiallyFilled,
    Filled,
    Canceled,
    Rejected,
}

impl Default for OrdState {
    fn default() -> (r: OrdState)
        ensures
            r == OrdState::Unknwon,
    {
        OrdState::Unknwon
    }
}

/// Settlement style of a contract.
#[derive(Debug, Copy, Clone, PartialEq, Eq, Structural)]
pub enum CtType {
    Linear,
    Inverse,
}

/// Call or put.
#[derive(Debug, Copy, Clone, PartialEq, Eq, Hash, Structural)]
pub enum OptType {
    C,
    P,
}

/// A trading venue.
#[non_exhaustive]
#[derive(Debug, Copy, Clone, PartialEq, Eq, Hash, Structural)]
pub enum Exch {
    Okx,
    BinanceFutures,
}

/// A kind of market data that can be subscribed to.
#[derive(Debug, Copy, Clone, PartialEq, Eq, Hash, Structural)]
pub enum DataType {
    Ticker,
    FundingRate,
    OpenInterest,
    Depth,
    Trade,
}

/// A currency code. `Unknown` stands for a currency that was never set.
#[derive(Debug, Copy, Clone, PartialEq, Eq, Hash, Structural)]
pub enum Ccy {
    Unknown,
    BTC,
    ETH,
    LTC,
    BCH,
    XRP,
    EOS,
    ETC,
    TRX,
    DOT,
    ADA,
    SOL,
    DOGE,
    LINK,
    FIL,
    OKB,
    BNB,
    AVAX,
    ATOM,
    UNI,
    XLM,
    XMR,
    MATIC,
    SHIB,
    NEAR,
    DAI,
    USD,
    USDT,
    USDC,
}

impl Default for Ccy {
    fn default() -> (r: Ccy)
        ensures
            r == Ccy::Unknown,
    {
        Ccy::Unknown
    }
}

impl OptType {
    /// The name of the option type, as it is written in text.
    pub open spec fn name(self) -> Seq<char> {
        match self {
            OptType::C => "C"@,
            OptType::P => "P"@,
        }
    }

    /// The option type that `s` names, if any.
    pub open spec fn named(s: Seq<char>) -> Option<OptType> {
        if s == "C"@ {
            Some(OptType::C)
        } else if s == "P"@ {
            Some(OptType::P)
        } else {
            None
        }
    }

    /// The name of the option type.
    pub fn to_str(&self) -> (r: &'static str)
        ensures
            r@ == self.name(),
    {
        match self {
            OptType::C => "C",
            OptType::P => "P",
        }
    }

    /// The option type named by the characters `s`.
    pub fn from_chars(s: &Vec<char>) -> (r: Option<OptType>)
        ensures
            r == OptType::named(s@),
    {
        if chars_eq_str(s, "C") {
            Some(OptType::C)
        } else if chars_eq_str(s, "P") {
            Some(OptType::P)
        } else {
            None
        }
    }

    /// The option type named by `s`.
    pub fn from_str(s: &str) -> (r: Option<OptType>)
        ensures
            r == OptType::named(s@),
    {
        let chars = chars_of(s);
        OptType::from_chars(&chars)
    }

    /// Every option type is found again by its name, and no name holds a
    /// separator of the instrument grammars.
    pub proof fn lemma_name(self)
        ensures
            OptType::named(self.name()) == Some(self),
            free_of(self.name(), '.'),
            free_of(self.name(), '-'),
    {
        reveal_strlit("C");
        reveal_strlit("P");
        assert("C"@ =~= seq!['C']);
        assert("C"@[0] == 'C');
        assert("P"@ =~= seq!['P']);
        assert("P"@[0] == 'P');
    }
}

impl Exch {
    /// The name of the exchange, as it is written in text.
    pub open spec fn name(self) -> Seq<char> {
        match self {
            Exch::Okx => "Okx"@,
            Exch::BinanceFutures => "BinanceFutures"@,
        }
    }

    /// The exchange that `s` names, if any.
    pub open spec fn named(s: Seq<char>) -> Option<Exch> {
        if s == "Okx"@ {
            Some(Exch::Okx)
        } else if s == "BinanceFutures"@ {
            Some(Exch::BinanceFutures)
        } else {
            None
        }
    }

    /// The name of the exchange.
    pub fn to_str(&self) -> (r: &'static str)
        ensures
            r@ == self.name(),
    {
        match self {
            Exch::Okx => "Okx",
            Exch::BinanceFutures => "BinanceFutures",
        }
    }

    /// The exchange named by the characters `s`.
    pub fn from_chars(s: &Vec<char>) -> (r: Option<Exch>)
        ensures
            r == Exch::named(s@),
    {
        if chars_eq_str(s, "Okx") {
            Some(Exch::Okx)
        } else if chars_eq_str(s, "BinanceFutures") {
            Some(Exch::BinanceFutures)
        } else {
            None
        }
    }

    /// The exchange named by `s`.
    pub fn from_str(s: &str) -> (r: Option<Exch>)
        ensures
            r == Exch::named(s@),
    {
        let chars = chars_of(s);
        Exch::from_chars(&chars)
    }

    /// Every exchange is found again by its name, and no name holds a
    /// separator of the instrument grammars.
    pub proof fn lemma_name(self)
        ensures
            Exch::named(self.name()) == Some(self),
            free_of(self.name(), '.'),
            free_of(self.name(), '-'),
    {
        reveal_strlit("Okx");
        reveal_strlit("BinanceFutures");
        assert("Okx"@ =~= seq!['O', 'k', 'x']);
        assert("BinanceFutures"@ =~= seq![
            'B',
            'i',
            'n',
            'a',
            'n',
            'c',
            'e',
            'F',
            'u',
            't',
            'u',
            'r',
            'e',
            's',
        ]);
    }
}

impl DataType {
    /// The name of the data kind, as it is written in text.
    pub open spec fn name(self) -> Seq<char> {
        match self {
            DataType::Ticker => "Ticker"@,
            DataType::FundingRate => "FundingRate"@,
            DataType::OpenInterest => "OpenInterest"@,
            DataType::Depth => "Depth"@,
            DataType::Trade => "Trade"@,
        }
    }

    /// The data kind that `s` names, if any.
    pub open spec fn named(s: Seq<char>) -> Option<DataType> {
        if s == "Ticker"@ {
            Some(DataType::Ticker)
        } else if s == "FundingRate"@ {
            Some(DataType::FundingRate)
        } else if s == "OpenInterest"@ {
            Some(DataType::OpenInterest)
        } else if s == "Depth"@ {
            Some(DataType::Depth)
        } else if s == "Trade"@ {
            Some(DataType::Trade)
        } else {
            None
        }
    }

    /// The name of the data kind.
    pub fn to_str(&self) -> (r: &'static str)
        ensures
            r@ == self.name(),
    {
        match self {
            DataType::Ticker => "Ticker",
            DataType::FundingRate => "FundingRate",
            DataType::OpenInterest => "OpenInterest",
            DataType::Depth => "Depth",
            DataType::Trade => "Trade",
        }
    }

    /// The data kind named by the characters `s`.
    pub fn from_chars(s: &Vec<char>) -> (r: Option<DataType>)
        ensures
            r == DataType::named(s@),
    {
        if chars_eq_str(s, "Ticker") {
            Some(DataType::Ticker)
        } else if chars_eq_str(s, "FundingRate") {
            Some(DataType::FundingRate)
        } else if chars_eq_str(s, "OpenInterest") {
            Some(DataType::OpenInterest)
        } else if chars_eq_str(s, "Depth") {
            Some(DataType::Depth)
        } else if chars_eq_str(s, "Trade") {
            Some(DataType::Trade)
        } else {
            None
        }
    }

    /// The data kind named by `s`.
    pub fn from_str(s: &str) -> (r: Option<DataType>)
        ensures
            r == DataType::named(s@),
    {
        let chars = chars_of(s);
        DataType::from_chars(&chars)
    }

    /// Every data kind is found again by its name, and no name holds a
    /// separator of the instrument grammars.
    pub proof fn lemma_name(self)
        ensures
            DataType::named(self.name()) == Some(self),
            free_of(self.name(), '.'),
            free_of(self.name(), '-'),
    {
        reveal_strlit("Ticker");
        reveal_strlit("FundingRate");
        reveal_strlit("OpenInterest");
        reveal_strlit("Depth");
        reveal_strlit("Trade");
        assert("Ticker"@ =~= seq!['T', 'i', 'c', 'k', 'e', 'r']);
        assert("FundingRate"@ =~= seq!['F', 'u', 'n', 'd', 'i', 'n', 'g', 'R', 'a', 't', 'e']);
        assert("OpenInterest"@ =~= seq![
            'O',
            'p',
            'e',
            'n',
            'I',
            'n',
            't',
            'e',
            'r',
            'e',
            's',
            't',
        ]);
        assert("Depth"@ =~= seq!['D', 'e', 'p', 't', 'h']);
        assert("Trade"@ =~= seq!['T', 'r', 'a', 'd', 'e']);
    }
}

impl Ccy {
    /// The name of the currency, as it is written in text.
    pub open spec fn name(self) -> Seq<char> {
        match self {
            Ccy::Unknown => "Unknown"@,
            Ccy::BTC => "BTC"@,
            Ccy::ETH => "ETH"@,
            Ccy::LTC => "LTC"@,
            Ccy::BCH => "BCH"@,
            Ccy::XRP => "XRP"@,
            Ccy::EOS => "EOS"@,
            Ccy::ETC => "ETC"@,
            Ccy::TRX => "TRX"@,
            Ccy::DOT => "DOT"@,
            Ccy::ADA => "ADA"@,
            Ccy::SOL => "SOL"@,
            Ccy::DOGE => "DOGE"@,
            Ccy::LINK => "LINK"@,
            Ccy::FIL => "FIL"@,
            Ccy::OKB => "OKB"@,
            Ccy::BNB => "BNB"@,
            Ccy::AVAX => "AVAX"@,
            Ccy::ATOM => "ATOM"@,
            Ccy::UNI => "UNI"@,
            Ccy::XLM => "XLM"@,
            Ccy::XMR => "XMR"@,
            Ccy::MATIC => "MATIC"@,
            Ccy::SHIB => "SHIB"@,
            Ccy::NEAR => "NEAR"@,
            Ccy::DAI => "DAI"@,
            Ccy::USD => "USD"@,
            Ccy::USDT => "USDT"@,
            Ccy::USDC => "USDC"@,
        }
    }

    /// The currency that `s` names, if any.
    pub open spec fn named(s: Seq<char>) -> Option<Ccy> {
        if s == "Unknown"@ {
            Some(Ccy::Unknown)
        } else if s == "BTC"@ {
            Some(Ccy::BTC)
        } else if s == "ETH"@ {
            Some(Ccy::ETH)
        } else if s == "LTC"@ {
            Some(Ccy::LTC)
        } else if s == "BCH"@ {
            Some(Ccy::BCH)
        } else if s == "XRP"@ {
            Some(Ccy::XRP)
        } else if s == "EOS"@ {
            Some(Ccy::EOS)
        } else if s == "ETC"@ {
            Some(Ccy::ETC)
        } else if s == "TRX"@ {
            Some(Ccy::TRX)
        } else if s == "DOT"@ {
            Some(Ccy::DOT)
        } else if s == "ADA"@ {
            Some(Ccy::ADA)
        } else if s == "SOL"@ {
            Some(Ccy::SOL)
        } else if s == "DOGE"@ {
            Some(Ccy::DOGE)
        } else if s == "LINK"@ {
            Some(Ccy::LINK)
        } else if s == "FIL"@ {
            Some(Ccy::FIL)
        } else if s == "OKB"@ {
            Some(Ccy::OKB)
        } else if s == "BNB"@ {
            Some(Ccy::BNB)
        } else if s == "AVAX"@ {
            Some(Ccy::AVAX)
        } else if s == "ATOM"@ {
            Some(Ccy::ATOM)
        } else if s == "UNI"@ {
            Some(Ccy::UNI)
        } else if s == "XLM"@ {
            Some(Ccy::XLM)
        } else if s == "XMR"@ {
            Some(Ccy::XMR)
        } else if s == "MATIC"@ {
            Some(Ccy::MATIC)
        } else if s == "SHIB"@ {
            Some(Ccy::SHIB)
        } else if s == "NEAR"@ {
            Some(Ccy::NEAR)
        } else if s == "DAI"@ {
            Some(Ccy::DAI)
        } else if s == "USD"@ {
            Some(Ccy::USD)
        } else if s == "USDT"@ {
            Some(Ccy::USDT)
        } else if s == "USDC"@ {
            Some(Ccy::USDC)
        } else {
            None
        }
    }

    /// The name of the currency.
    pub fn to_str(&self) -> (r: &'static str)
        ensures
            r@ == self.name(),
    {
        match self {
            Ccy::Unknown => "Unknown",
            Ccy::BTC => "BTC",
            Ccy::ETH => "ETH",
            Ccy::LTC => "LTC",
            Ccy::BCH => "BCH",
            Ccy::XRP => "XRP",
            Ccy::EOS => "EOS",
            Ccy::ETC => "ETC",
            Ccy::TRX => "TRX",
            Ccy::DOT => "DOT",
            Ccy::ADA => "ADA",
            Ccy::SOL => "SOL",
            Ccy::DOGE => "DOGE",
            Ccy::LINK => "LINK",
            Ccy::FIL => "FIL",
            Ccy::OKB => "OKB",
            Ccy::BNB => "BNB",
            Ccy::AVAX => "AVAX",
            Ccy::ATOM => "ATOM",
            Ccy::UNI => "UNI",
            Ccy::XLM => "XLM",
            Ccy::XMR => "XMR",
            Ccy::MATIC => "MATIC",
            Ccy::SHIB => "SHIB",
            Ccy::NEAR => "NEAR",
            Ccy::DAI => "DAI",
            Ccy::USD => "USD",
            Ccy::USDT => "USDT",
            Ccy::USDC => "USDC",
        }
    }

    /// The currency named by the characters `s`.
    pub fn from_chars(s: &Vec<char>) -> (r: Option<Ccy>)
        ensures
            r == Ccy::named(s@),
    {
        if chars_eq_str(s, "Unknown") {
            Some(Ccy::Unknown)
        } else if chars_eq_str(s, "BTC") {
            Some(Ccy::BTC)
        } else if chars_eq_str(s, "ETH") {
            Some(Ccy::ETH)
        } else if chars_eq_str(s, "LTC") {
            Some(Ccy::LTC)
        } else if chars_eq_str(s, "BCH") {
            Some(Ccy::BCH)
        } else if chars_eq_str(s, "XRP") {
            Some(Ccy::XRP)
        } else if chars_eq_str(s, "EOS") {
            Some(Ccy::EOS)
        } else if chars_eq_str(s, "ETC") {
            Some(Ccy::ETC)
        } else if chars_eq_str(s, "TRX") {
            Some(Ccy::TRX)
        } else if chars_eq_str(s, "DOT") {
            Some(Ccy::DOT)
        } else if chars_eq_str(s, "ADA") {
            Some(Ccy::ADA)
        } else if chars_eq_str(s, "SOL") {
            Some(Ccy::SOL)
        } else if chars_eq_str(s, "DOGE") {
            Some(Ccy::DOGE)
        } else if chars_eq_str(s, "LINK") {
            Some(Ccy::LINK)
        } else if chars_eq_str(s, "FIL") {
            Some(Ccy::FIL)
        } else if chars_eq_str(s, "OKB") {
            Some(Ccy::OKB)
        } else if chars_eq_str(s, "BNB") {
            Some(Ccy::BNB)
        } else if chars_eq_str(s, "AVAX") {
            Some(Ccy::AVAX)
        } else if chars_eq_str(s, "ATOM") {
            Some(Ccy::ATOM)
        } else if chars_eq_str(s, "UNI") {
            Some(Ccy::UNI)
        } else if chars_eq_str(s, "XLM") {
            Some(Ccy::XLM)
        } else if chars_eq_str(s, "XMR") {
            Some(Ccy::XMR)
        } else if chars_eq_str(s, "MATIC") {
            Some(Ccy::MATIC)
        } else if chars_eq_str(s, "SHIB") {
            Some(Ccy::SHIB)
        } else if chars_eq_str(s, "NEAR") {
            Some(Ccy::NEAR)
        } else if chars_eq_str(s, "DAI") {
            Some(Ccy::DAI)
        } else if chars_eq_str(s, "USD") {
            Some(Ccy::USD)
        } else if chars_eq_str(s, "USDT") {
            Some(Ccy::USDT)
        } else if chars_eq_str(s, "USDC") {
            Some(Ccy::USDC)
        } else {
            None
        }
    }

    /// The currency named by `s`.
    pub fn from_str(s: &str) -> (r: Option<Ccy>)
        ensures
            r == Ccy::named(s@),
    {
        let chars = chars_of(s);
        Ccy::from_chars(&chars)
    }

    /// Every currency is found again by its name, and no name holds a
    /// separator of the instrument grammars.
    pub proof fn lemma_name(self)
        ensures
            Ccy::named(self.name()) == Some(self),
            free_of(self.name(), '.'),
            free_of(self.name(), '-'),
    {
        reveal_strlit("Unknown");
        reveal_strlit("BTC");
        reveal_strlit("ETH");
        reveal_strlit("LTC");
        reveal_strlit("BCH");
        reveal_strlit("XRP");
        reveal_strlit("EOS");
        reveal_strlit("ETC");
        reveal_strlit("TRX");
        reveal_strlit("DOT");
        reveal_strlit("ADA");
        reveal_strlit("SOL");
        reveal_strlit("DOGE");
        reveal_strlit("LINK");
        reveal_strlit("FIL");
        reveal_strlit("OKB");
        reveal_strlit("BNB");
        reveal_strlit("AVAX");
        reveal_strlit("ATOM");
        reveal_strlit("UNI");
        reveal_strlit("XLM");
        reveal_strlit("XMR");
        reveal_strlit("MATIC");
        reveal_strlit("SHIB");
        reveal_strlit("NEAR");
        reveal_strlit("DAI");
        reveal_strlit("USD");
        reveal_strlit("USDT");
        reveal_strlit("USDC");
        assert("Unknown"@ =~= seq!['U', 'n', 'k', 'n', 'o', 'w', 'n']);
        assert("BTC"@ =~= seq!['B', 'T', 'C']);
        assert("ETH"@ =~= seq!['E', 'T', 'H']);
        assert("LTC"@ =~= seq!['L', 'T', 'C']);
        assert("BCH"@ =~= seq!['B', 'C', 'H']);
        assert("XRP"@ =~= seq!['X', 'R', 'P']);
        assert("EOS"@ =~= seq!['E', 'O', 'S']);
        assert("ETC"@ =~= seq!['E', 'T', 'C']);
        assert("TRX"@ =~= seq!['T', 'R', 'X']);
        assert("DOT"@ =~= seq!['D', 'O', 'T']);
        assert("ADA"@ =~= seq!['A', 'D', 'A']);
        assert("SOL"@ =~= seq!['S', 'O', 'L']);
        assert("DOGE"@ =~= seq!['D', 'O', 'G', 'E']);
        assert("LINK"@ =~= seq!['L', 'I', 'N', 'K']);
        assert("FIL"@ =~= seq!['F', 'I', 'L']);
        assert("OKB"@ =~= seq!['O', 'K', 'B']);
        assert("BNB"@ =~= seq!['B', 'N', 'B']);
        assert("AVAX"@ =~= seq!['A', 'V', 'A', 'X']);
        assert("ATOM"@ =~= seq!['A', 'T', 'O', 'M']);
        assert("UNI"@ =~= seq!['U', 'N', 'I']);
        assert("XLM"@ =~= seq!['X', 'L', 'M']);
        assert("XMR"@ =~= seq!['X', 'M', 'R']);
        assert("MATIC"@ =~= seq!['M', 'A', 'T', 'I', 'C']);
        assert("SHIB"@ =~= seq!['S', 'H', 'I', 'B']);
        assert("NEAR"@ =~= seq!['N', 'E', 'A', 'R']);
        assert("DAI"@ =~= seq!['D', 'A', 'I']);
        assert("USD"@ =~= seq!['U', 'S', 'D']);
        assert("USDT"@ =~= seq!['U', 'S', 'D', 'T']);
        assert("USDC"@ =~= seq!['U', 'S', 'D', 'C']);
    }
}

/// Why a text could not be read as an instrument or as one of its parts.
#[derive(Debug, Copy, Clone, PartialEq, Eq, Structural)]
pub enum DecodeError {
    /// The text does not have the number of parts of an instrument.
    Instrument,
    /// The exchange name is not known.
    Exchange,
    /// The base currency code is not known.
    BaseCurrency,
    /// The quote currency code is not known.
    QuoteCurrency,
    /// The instrument type is not known.
    InstrumentType,
    /// A dated instrument type comes without its expiration date.
    MissingExpirationDate,
    /// The expiration date is not a date.
    ExpirationDate,
    /// An option comes without its strike.
    MissingStrike,
    /// The strike is not an integer.
    Strike,
    /// An option comes without its put or call mark.
    MissingOptionType,
    /// The put or call mark is not known.
    OptionType,
    /// A frame lacks a field, or holds there something other than what the
    /// field is to hold.
    Field,
    /// A text does not write a number.
    Number,
    /// A text does not write an integer.
    Integer,
    /// A time lies outside the range of times.
    Time,
    /// The side of an order is not known.
    Side,
    /// The type of an order is not known.
    OrderType,
    /// The state of an order is not known.
    OrderState,
    /// The margin mode is not known.
    MarginMode,
    /// A currency code is not known.
    Currency,
    /// A frame is none of the frames that the exchange sends.
    Frame,
}

impl DecodeError {
    /// A short description of the error.
    pub open spec fn description(self) -> Seq<char> {
        match self {
            DecodeError::Instrument => "invalid instrument"@,
            DecodeError::Exchange => "invalid exchange"@,
            DecodeError::BaseCurrency => "invalid base currency"@,
            DecodeError::QuoteCurrency => "invalid quote currency"@,
            DecodeError::InstrumentType => "invalid instrument type"@,
            DecodeError::MissingExpirationDate => "expiration date not provided"@,
            DecodeError::ExpirationDate => "invalid expiration date"@,
            DecodeError::MissingStrike => "strike not provided"@,
            DecodeError::Strike => "invalid strike"@,
            DecodeError::MissingOptionType => "option type not provided"@,
            DecodeError::OptionType => "invalid option type"@,
            DecodeError::Field => "field not provided"@,
            DecodeError::Number => "invalid number"@,
            DecodeError::Integer => "invalid integer"@,
            DecodeError::Time => "invalid time"@,
            DecodeError::Side => "invalid side"@,
            DecodeError::OrderType => "invalid order type"@,
            DecodeError::OrderState => "invalid order state"@,
            DecodeError::MarginMode => "invalid margin mode"@,
            DecodeError::Currency => "invalid currency"@,
            DecodeError::Frame => "unexpected frame"@,
        }
    }

    /// A short description of the error.
    pub fn message(&self) -> (r: &'static str)
        ensures
            r@ == self.description(),
    {
        match self {
            DecodeError::Instrument => "invalid instrument",
            DecodeError::Exchange => "invalid exchange",
            DecodeError::BaseCurrency => "invalid base currency",
            DecodeError::QuoteCurrency => "invalid quote currency",
            DecodeError::InstrumentType => "invalid instrument type",
            DecodeError::MissingExpirationDate => "expiration date not provided",
            DecodeError::ExpirationDate => "invalid expiration date",
            DecodeError::MissingStrike => "strike not provided",
            DecodeError::Strike => "invalid strike",
            DecodeError::MissingOptionType => "option type not provided",
            DecodeError::OptionType => "invalid option type",
            DecodeError::Field => "field not provided",
            DecodeError::Number => "invalid number",
            DecodeError::Integer => "invalid integer",
            DecodeError::Time => "invalid time",
            DecodeError::Side => "invalid side",
            DecodeError::OrderType => "invalid order type",
            DecodeError::OrderState => "invalid order state",
            DecodeError::MarginMode => "invalid margin mode",
            DecodeError::Currency => "invalid currency",
            DecodeError::Frame => "unexpected frame",
        }
    }
}

/// The first year that a date can have.
pub const MIN_YEAR: i32 = -262143;

/// The last year that a date can have.
pub const MAX_YEAR: i32 = 262142;

/// Whether `year` is a leap year of the Gregorian calendar.
pub open spec fn is_leap_year(year: int) -> bool {
    year % 4 == 0 && (year % 100 != 0 || year % 400 == 0)
}

/// The number of days of `month` in `year`.
pub open spec fn days_in_month(year: int, month: int) -> int {
    if month == 2 {
        if is_leap_year(year) {
            29
        } else {
            28
        }
    } else if month == 4 || month == 6 || month == 9 || month == 11 {
        30
    } else {
        31
    }
}

/// Whether `year`, `month` and `day` are a date of the calendar.
pub open spec fn valid_ymd(year: int, month: int, day: int) -> bool {
    &&& MIN_YEAR <= year <= MAX_YEAR
    &&& 1 <= month <= 12
    &&& 1 <= day <= days_in_month(year, month)
}

/// A date of the proleptic Gregorian calendar.
#[derive(Debug, Copy, Clone, PartialEq, Eq, Hash, Structural)]
pub struct Date {
    year: i32,
    month: u32,
    day: u32,
}

/// The two decimal digits of `n`, for `0 <= n <= 99`.
pub open spec fn two_digits(n: int) -> Seq<char> {
    seq![digit_char(n / 10), digit_char(n % 10)]
}

/// The year that a two-digit year stands for: 1970 to 2069.
pub open spec fn pivot_year(yy: int) -> int {
    if yy < 70 {
        2000 + yy
    } else {
        1900 + yy
    }
}

impl Date {
    /// The year of the date.
    pub closed spec fn spec_year(self) -> int {
        self.year as int
    }

    /// The month of the date, from 1.
    pub closed spec fn spec_month(self) -> int {
        self.month as int
    }

    /// The day of the month, from 1.
    pub closed spec fn spec_day(self) -> int {
        self.day as int
    }

    /// Every date in use is a date of the calendar.
    #[verifier::type_invariant]
    pub open spec fn wf(self) -> bool {
        valid_ymd(self.spec_year(), self.spec_month(), self.spec_day())
    }

    /// The date of `year`, `month` and `day`, where they are one.
    pub closed spec fn from_ymd_spec(year: int, month: int, day: int) -> Option<Date> {
        if valid_ymd(year, month, day) {
            Some(Date { year: year as i32, month: month as u32, day: day as u32 })
        } else {
            None
        }
    }

    /// The date as six digits: year in the century, month, day.
    pub open spec fn yymmdd(self) -> Seq<char> {
        two_digits(self.spec_year() % 100) + two_digits(self.spec_month()) + two_digits(
            self.spec_day(),
        )
    }

    /// `from_ymd_spec` gives a date exactly for the dates of the calendar,
    /// and that date has the year, month and day it was made of.
    pub proof fn lemma_from_ymd(year: int, month: int, day: int)
        ensures
            valid_ymd(year, month, day) ==> (Date::from_ymd_spec(year, month, day) matches Some(d)
                && d.spec_year() == year && d.spec_month() == month && d.spec_day() == day
                && d.wf()),
            !valid_ymd(year, month, day) ==> Date::from_ymd_spec(year, month, day) is None,
    {
    }

    /// A date is made again from its year, month and day.
    pub proof fn lemma_parts(self)
        requires
            self.wf(),
        ensures
            Date::from_ymd_spec(self.spec_year(), self.spec_month(), self.spec_day()) == Some(
                self,
            ),
    {
    }

    /// The date of `year`, `month` and `day`, or `None` where the calendar
    /// has no such date.
    pub fn from_ymd_opt(year: i32, month: u32, day: u32) -> (r: Option<Date>)
        ensures
            r == Date::from_ymd_spec(year as int, month as int, day as int),
            r is Some == valid_ymd(year as int, month as int, day as int),
            r matches Some(d) ==> d.spec_year() == year && d.spec_month() == month && d.spec_day()
                == day && d.wf(),
    {
        if year < MIN_YEAR || year > MAX_YEAR || month < 1 || month > 12 || day < 1 {
            return None;
        }
        let shifted: u32 = (year + 400_000) as u32;
        let leap = shifted % 4 == 0 && (shifted % 100 != 0 || shifted % 400 == 0);
        let last: u32 = if month == 2 {
            if leap {
                29
            } else {
                28
            }
        } else if month == 4 || month == 6 || month == 9 || month == 11 {
            30
        } else {
            31
        };
        if day > last {
            return None;
        }
        Some(Date { year, month, day })
    }

    /// The year of the date.
    pub fn year(&self) -> (r: i32)
        ensures
            r == self.spec_year(),
    {
        self.year
    }

    /// The month of the date, from 1.
    pub fn month(&self) -> (r: u32)
        ensures
            r == self.spec_month(),
    {
        self.month
    }

    /// The day of the month, from 1.
    pub fn day(&self) -> (r: u32)
        ensures
            r == self.spec_day(),
    {
        self.day
    }
}

/// Whether `s` is six decimal digits.
pub open spec fn six_digits(s: Seq<char>) -> bool {
    s.len() == 6 && all_digits(s)
}

/// The date that six digits write: two for the year, read as a year from
/// 1970 to 2069, two for the month and two for the day.
pub open spec fn six_digit_date(s: Seq<char>) -> Option<Date> {
    Date::from_ymd_spec(
        pivot_year(digits_value(s.subrange(0, 2))),
        digits_value(s.subrange(2, 4)),
        digits_value(s.subrange(4, 6)),
    )
}

/// What chrono's `NaiveDate::parse_from_str` reads from `s` under the format
/// `%y%m%d`, as a date of this library; `None` where it reports an error.
pub uninterp spec fn chrono_parse_yymmdd(s: Seq<char>) -> Option<Date>;

/// The expiry date that `s` writes: six digits are read as year, month and
/// day; any other text is read as chrono reads it.
pub open spec fn parse_date_spec(s: Seq<char>) -> Option<Date> {
    if six_digits(s) {
        six_digit_date(s)
    } else {
        chrono_parse_yymmdd(s)
    }
}

/// Reads an expiry date with chrono's `NaiveDate::parse_from_str` and the
/// format `%y%m%d`. The result is a function of the text alone. On six
/// digits chrono reads two digits each for year, month and day, takes the
/// year as 2000 + yy below 70 and 1900 + yy from 70, and reports an error
/// unless the calendar has that date. Whatever it reads is a date of the
/// calendar with a year from 1970 to 2069.
#[verifier::external_body]
pub(crate) fn parse_yymmdd(s: &Vec<char>) -> (r: Option<Date>)
    ensures
        !six_digits(s@) ==> r == chrono_parse_yymmdd(s@),
        six_digits(s@) ==> r == six_digit_date(s@),
        r matches Some(d) ==> d.wf() && 1970 <= d.spec_year() <= 2069,
{
    let text: String = s.iter().collect();
    match chrono::NaiveDate::parse_from_str(&text, "%y%m%d") {
        Ok(d) => Some(Date { year: d.year(), month: d.month(), day: d.day() }),
        Err(_) => None,
    }
}

/// Appends the two decimal digits of `n`.
fn push_two_digits(n: u32, out: &mut String)
    requires
        n <= 99,
    ensures
        final(out)@ == old(out)@ + two_digits(n as int),
{
    out.append(digit_str((n / 10) as u8));
    out.append(digit_str((n % 10) as u8));
    assert(final(out)@ =~= old(out)@ + two_digits(n as int));
}

/// Writes a date as six digits: the year modulo 100, the month and the
/// day, two digits each.
pub fn format_yymmdd(d: &Date) -> (r: String)
    ensures
        r@ == d.yymmdd(),
{
    proof {
        use_type_invariant(d);
    }
    let year_in_century: u32 = ((d.year + 262_200) as u32) % 100;
    let mut out = String::new();
    push_two_digits(year_in_century, &mut out);
    push_two_digits(d.month, &mut out);
    push_two_digits(d.day, &mut out);
    assert(out@ =~= d.yymmdd());
    out
}

/// Two digits write the number they were made of.
pub proof fn lemma_two_digits(n: int)
    requires
        0 <= n <= 99,
    ensures
        two_digits(n).len() == 2,
        all_digits(two_digits(n)),
        digits_value(two_digits(n)) == n,
{
    reveal_with_fuel(digits_value, 3);
}

impl Date {
    /// The six digits of a date are digits.
    pub proof fn lemma_yymmdd_digits(self)
        requires
            self.wf(),
        ensures
            six_digits(self.yymmdd()),
    {
        let s = self.yymmdd();
        assert forall|i: int| 0 <= i < s.len() implies is_digit(#[trigger] s[i]) by {
            if i < 2 {
            } else if i < 4 {
            }
        }
    }

    /// A date from 1970 to 2069 is read back from its six digits.
    pub proof fn lemma_yymmdd_round_trip(self)
        requires
            self.wf(),
            1970 <= self.spec_year() <= 2069,
        ensures
            parse_date_spec(self.yymmdd()) == Some(self),
    {
        lemma_two_digits(self.spec_year() % 100);
        lemma_two_digits(self.spec_month());
        lemma_two_digits(self.spec_day());
        let s = self.yymmdd();
        assert(s.subrange(0, 2) =~= two_digits(self.spec_year() % 100));
        assert(s.subrange(2, 4) =~= two_digits(self.spec_month()));
        assert(s.subrange(4, 6) =~= two_digits(self.spec_day()));
    }
}

/// The type of an instrument, with what distinguishes one contract of the
/// type from another.
#[derive(Debug, Copy, Clone, PartialEq, Eq, Hash, Structural)]
pub enum InstType {
    Spot,
    Margin,
    Swap,
    /// A future, with its expiry date.
    Futures(Date),
    /// An option, with its expiry date, its strike and whether it is a call
    /// or a put.
    Options(Date, i64, OptType),
}

impl InstType {
    /// The text form of the type: its name, followed for a future by the
    /// expiry date and for an option by the expiry date, the strike and the
    /// option type, each after a hyphen.
    pub open spec fn encode(self) -> Seq<char> {
        match self {
            InstType::Spot => "Spot"@,
            InstType::Margin => "Margin"@,
            InstType::Swap => "Swap"@,
            InstType::Futures(d) => "Futures"@ + seq!['-'] + d.yymmdd(),
            InstType::Options(d, strike, t) => "Options"@ + seq!['-'] + d.yymmdd() + seq!['-']
                + to_decimal(strike as int) + seq!['-'] + t.name(),
        }
    }

    /// The type that the hyphen-separated text `s` writes. The pieces are
    /// read from the left, and pieces after the last one needed play no part.
    pub open spec fn decode(s: Seq<char>) -> Result<InstType, DecodeError> {
        let t = split(s, '-');
        if t[0] == "Spot"@ {
            Ok(InstType::Spot)
        } else if t[0] == "Margin"@ {
            Ok(InstType::Margin)
        } else if t[0] == "Swap"@ {
            Ok(InstType::Swap)
        } else if t[0] == "Futures"@ {
            if t.len() < 2 {
                Err(DecodeError::MissingExpirationDate)
            } else {
                Self::futures_of(parse_date_spec(t[1]))
            }
        } else if t[0] == "Options"@ {
            if t.len() < 2 {
                Err(DecodeError::MissingExpirationDate)
            } else if t.len() < 3 {
                Err(DecodeError::MissingStrike)
            } else if t.len() < 4 {
                Err(DecodeError::MissingOptionType)
            } else {
                Self::decode_option(t[1], t[2], t[3])
            }
        } else {
            Err(DecodeError::InstrumentType)
        }
    }

    /// The future of an expiry date that was read, or the error for one
    /// that was not.
    pub open spec fn futures_of(date: Option<Date>) -> Result<InstType, DecodeError> {
        match date {
            Some(d) => Ok(InstType::Futures(d)),
            None => Err(DecodeError::ExpirationDate),
        }
    }

    /// The option of an expiry date, a strike and an option type that were
    /// read, or the error for the first of them that was not.
    pub open spec fn options_of(date: Option<Date>, strike: Option<i64>, opt: Option<OptType>)
        -> Result<InstType, DecodeError> {
        match date {
            None => Err(DecodeError::ExpirationDate),
            Some(d) => match strike {
                None => Err(DecodeError::Strike),
                Some(k) => match opt {
                    None => Err(DecodeError::OptionType),
                    Some(t) => Ok(InstType::Options(d, k, t)),
                },
            },
        }
    }

    /// The option that an expiry date, a strike and an option type write.
    pub open spec fn decode_option(date: Seq<char>, strike: Seq<char>, opt: Seq<char>) -> Result<
        InstType,
        DecodeError,
    > {
        Self::options_of(parse_date_spec(date), parse_i64_spec(strike), OptType::named(opt))
    }

    /// Whether the type's dates are dates of the calendar.
    pub open spec fn wf(self) -> bool {
        match self {
            InstType::Futures(d) => d.wf(),
            InstType::Options(d, _, _) => d.wf(),
            _ => true,
        }
    }

    /// Whether the text form of the type can be read back: an expiry date
    /// from 1970 to 2069, written with two digits for the year, and a strike
    /// that is not negative, so that its text holds no hyphen.
    pub open spec fn round_trips(self) -> bool {
        match self {
            InstType::Futures(d) => d.wf() && 1970 <= d.spec_year() <= 2069,
            InstType::Options(d, strike, _) => d.wf() && 1970 <= d.spec_year() <= 2069 && strike
                >= 0,
            _ => true,
        }
    }

    /// The text form of the type.
    pub fn to_string(&self) -> (r: String)
        ensures
            r@ == self.encode(),
    {
        match self {
            InstType::Spot => String::from_str("Spot"),
            InstType::Margin => String::from_str("Margin"),
            InstType::Swap => String::from_str("Swap"),
            InstType::Futures(d) => {
                proof {
                    reveal_strlit("-");
                }
                let mut out = String::from_str("Futures");
                out.append("-");
                let date = format_yymmdd(d);
                out.append(date.as_str());
                out
            },
            InstType::Options(d, strike, t) => {
                proof {
                    reveal_strlit("-");
                }
                let mut out = String::from_str("Options");
                out.append("-");
                let date = format_yymmdd(d);
                out.append(date.as_str());
                out.append("-");
                push_i64(*strike, &mut out);
                out.append("-");
                out.append(t.to_str());
                out
            },
        }
    }

    /// Reads a type from the characters of its text form.
    pub fn from_chars(value: &Vec<char>) -> (r: Result<InstType, DecodeError>)
        ensures
            r == InstType::decode(value@),
    {
        let t = split_chars(value, '-');
        if chars_eq_str(&t[0], "Spot") {
            Ok(InstType::Spot)
        } else if chars_eq_str(&t[0], "Margin") {
            Ok(InstType::Margin)
        } else if chars_eq_str(&t[0], "Swap") {
            Ok(InstType::Swap)
        } else if chars_eq_str(&t[0], "Futures") {
            if t.len() < 2 {
                Err(DecodeError::MissingExpirationDate)
            } else {
                InstType::futures_from(parse_yymmdd(&t[1]))
            }
        } else if chars_eq_str(&t[0], "Options") {
            if t.len() < 2 {
                Err(DecodeError::MissingExpirationDate)
            } else if t.len() < 3 {
                Err(DecodeError::MissingStrike)
            } else if t.len() < 4 {
                Err(DecodeError::MissingOptionType)
            } else {
                InstType::option_from_chars(&t[1], &t[2], &t[3])
            }
        } else {
            Err(DecodeError::InstrumentType)
        }
    }

    /// Reads an option from its expiry date, strike and option type.
    pub fn option_from_chars(date: &Vec<char>, strike: &Vec<char>, opt: &Vec<char>) -> (r: Result<
        InstType,
        DecodeError,
    >)
        ensures
            r == InstType::decode_option(date@, strike@, opt@),
    {
        InstType::options_from(parse_yymmdd(date), parse_i64(strike), OptType::from_chars(opt))
    }

    /// The future of an expiry date that was read; the error for one that
    /// was not.
    pub fn futures_from(date: Option<Date>) -> (r: Result<InstType, DecodeError>)
        ensures
            r == InstType::futures_of(date),
    {
        match date {
            Some(d) => Ok(InstType::Futures(d)),
            None => Err(DecodeError::ExpirationDate),
        }
    }

    /// The option of an expiry date, a strike and an option type that were
    /// read; the error for the first of them that was not.
    pub fn options_from(date: Option<Date>, strike: Option<i64>, opt: Option<OptType>) -> (r:
        Result<InstType, DecodeError>)
        ensures
            r == InstType::options_of(date, strike, opt),
    {
        let d = match date {
            Some(d) => d,
            None => { return Err(DecodeError::ExpirationDate); },
        };
        let k = match strike {
            Some(k) => k,
            None => { return Err(DecodeError::Strike); },
        };
        match opt {
            Some(t) => Ok(InstType::Options(d, k, t)),
            None => Err(DecodeError::OptionType),
        }
    }
}

impl TryFrom<&str> for InstType {
    type Error = DecodeError;

    /// Reads a type from its text form.
    fn try_from(value: &str) -> (r: Result<InstType, DecodeError>)
        ensures
            r == InstType::decode(value@),
    {
        let chars = chars_of(value);
        InstType::from_chars(&chars)
    }
}

impl vstd::std_specs::convert::TryFromSpecImpl<&str> for InstType {
    open spec fn obeys_try_from_spec() -> bool {
        true
    }

    open spec fn try_from_spec(v: &str) -> Result<InstType, DecodeError> {
        InstType::decode(v@)
    }
}

/// An instrument: what is traded, and where.
#[derive(Debug, Copy, Clone, PartialEq, Eq, Hash, Structural)]
pub struct Inst {
    pub exch: Exch,
    pub base_ccy: Ccy,
    pub quote_ccy: Ccy,
    pub inst_type: InstType,
}

impl Inst {
    /// The dotted text form: exchange, base currency, quote currency and
    /// type, with a dot between them.
    pub open spec fn encode(self) -> Seq<char> {
        self.exch.name() + seq!['.'] + self.base_ccy.name() + seq!['.'] + self.quote_ccy.name()
            + seq!['.'] + self.inst_type.encode()
    }

    /// The instrument that four texts name.
    pub open spec fn decode_parts(
        exch: Seq<char>,
        base_ccy: Seq<char>,
        quote_ccy: Seq<char>,
        inst_type: Seq<char>,
    ) -> Result<Inst, DecodeError> {
        match Exch::named(exch) {
            None => Err(DecodeError::Exchange),
            Some(exch) => match Ccy::named(base_ccy) {
                None => Err(DecodeError::BaseCurrency),
                Some(base_ccy) => match Ccy::named(quote_ccy) {
                    None => Err(DecodeError::QuoteCurrency),
                    Some(quote_ccy) => match InstType::decode(inst_type) {
                        Err(e) => Err(e),
                        Ok(inst_type) => Ok(Inst { exch, base_ccy, quote_ccy, inst_type }),
                    },
                },
            },
        }
    }

    /// The instrument that the dotted text `s` writes: exactly four parts,
    /// read in order.
    pub open spec fn decode(s: Seq<char>) -> Result<Inst, DecodeError> {
        let p = split(s, '.');
        if p.len() != 4 {
            Err(DecodeError::Instrument)
        } else {
            Self::decode_parts(p[0], p[1], p[2], p[3])
        }
    }

    /// The dotted text form of the instrument.
    pub fn to_string(&self) -> (r: String)
        ensures
            r@ == self.encode(),
    {
        proof {
            reveal_strlit(".");
        }
        let mut out = String::from_str(self.exch.to_str());
        out.append(".");
        out.append(self.base_ccy.to_str());
        out.append(".");
        out.append(self.quote_ccy.to_str());
        out.append(".");
        let inst_type = self.inst_type.to_string();
        out.append(inst_type.as_str());
        out
    }

    /// Reads an instrument from the characters of four texts that name its
    /// exchange, its currencies and its type.
    pub fn from_parts(
        exch: &Vec<char>,
        base_ccy: &Vec<char>,
        quote_ccy: &Vec<char>,
        inst_type: &Vec<char>,
    ) -> (r: Result<Inst, DecodeError>)
        ensures
            r == Inst::decode_parts(exch@, base_ccy@, quote_ccy@, inst_type@),
    {
        let exch = match Exch::from_chars(exch) {
            Some(e) => e,
            None => { return Err(DecodeError::Exchange); },
        };
        let base_ccy = match Ccy::from_chars(base_ccy) {
            Some(c) => c,
            None => { return Err(DecodeError::BaseCurrency); },
        };
        let quote_ccy = match Ccy::from_chars(quote_ccy) {
            Some(c) => c,
            None => { return Err(DecodeError::QuoteCurrency); },
        };
        match InstType::from_chars(inst_type) {
            Ok(inst_type) => Ok(Inst { exch, base_ccy, quote_ccy, inst_type }),
            Err(e) => Err(e),
        }
    }
}

impl TryFrom<&str> for Inst {
    type Error = DecodeError;

    /// Reads an instrument from its dotted text form.
    fn try_from(value: &str) -> (r: Result<Inst, DecodeError>)
        ensures
            r == Inst::decode(value@),
    {
        let chars = chars_of(value);
        let p = split_chars(&chars, '.');
        if p.len() != 4 {
            return Err(DecodeError::Instrument);
        }
        Inst::from_parts(&p[0], &p[1], &p[2], &p[3])
    }
}

impl vstd::std_specs::convert::TryFromSpecImpl<&str> for Inst {
    open spec fn obeys_try_from_spec() -> bool {
        true
    }

    open spec fn try_from_spec(v: &str) -> Result<Inst, DecodeError> {
        Inst::decode(v@)
    }
}

impl TryFrom<(&str, &str, &str, &str)> for Inst {
    type Error = DecodeError;

    /// Reads an instrument from four texts that name its exchange, its
    /// currencies and its type.
    fn try_from(value: (&str, &str, &str, &str)) -> (r: Result<Inst, DecodeError>)
        ensures
            r == Inst::decode_parts(value.0@, value.1@, value.2@, value.3@),
    {
        let exch = chars_of(value.0);
        let base_ccy = chars_of(value.1);
        let quote_ccy = chars_of(value.2);
        let inst_type = chars_of(value.3);
        Inst::from_parts(&exch, &base_ccy, &quote_ccy, &inst_type)
    }
}

impl vstd::std_specs::convert::TryFromSpecImpl<(&str, &str, &str, &str)> for Inst {
    open spec fn obeys_try_from_spec() -> bool {
        true
    }

    open spec fn try_from_spec(v: (&str, &str, &str, &str)) -> Result<Inst, DecodeError> {
        Inst::decode_parts(v.0@, v.1@, v.2@, v.3@)
    }
}

/// What the names of the instrument types hold.
proof fn lemma_type_names()
    ensures
        "Spot"@ == seq!['S', 'p', 'o', 't'],
        "Margin"@ == seq!['M', 'a', 'r', 'g', 'i', 'n'],
        "Swap"@ == seq!['S', 'w', 'a', 'p'],
        "Futures"@ == seq!['F', 'u', 't', 'u', 'r', 'e', 's'],
        "Options"@ == seq!['O', 'p', 't', 'i', 'o', 'n', 's'],
{
    reveal_strlit("Spot");
    reveal_strlit("Margin");
    reveal_strlit("Swap");
    reveal_strlit("Futures");
    reveal_strlit("Options");
    assert("Spot"@ =~= seq!['S', 'p', 'o', 't']);
    assert("Margin"@ =~= seq!['M', 'a', 'r', 'g', 'i', 'n']);
    assert("Swap"@ =~= seq!['S', 'w', 'a', 'p']);
    assert("Futures"@ =~= seq!['F', 'u', 't', 'u', 'r', 'e', 's']);
    assert("Options"@ =~= seq!['O', 'p', 't', 'i', 'o', 'n', 's']);
}

impl InstType {
    /// The text form of a type holds no dot.
    pub proof fn lemma_encode_free_of_dot(self)
        requires
            self.wf(),
        ensures
            free_of(self.encode(), '.'),
    {
        lemma_type_names();
        match self {
            InstType::Options(d, strike, t) => {
                lemma_to_decimal_free_of(strike as int, '.');
                t.lemma_name();
            },
            _ => {},
        }
    }

    /// The text form of a future splits into its name and its expiry date.
    proof fn lemma_futures_pieces(d: Date)
        requires
            d.wf(),
        ensures
            split(InstType::Futures(d).encode(), '-') == seq!["Futures"@, d.yymmdd()],
    {
        lemma_type_names();
        lemma_split_two("Futures"@, d.yymmdd(), '-');
    }

    /// The text form of an option with a strike that is not negative splits
    /// into its name, its expiry date, its strike and its option type.
    proof fn lemma_options_pieces(d: Date, strike: i64, o: OptType)
        requires
            d.wf(),
            strike >= 0,
        ensures
            split(InstType::Options(d, strike, o).encode(), '-') == seq![
                "Options"@,
                d.yymmdd(),
                to_decimal(strike as int),
                o.name(),
            ],
    {
        lemma_type_names();
        lemma_to_decimal_free_of(strike as int, '-');
        o.lemma_name();
        lemma_split_four("Options"@, d.yymmdd(), to_decimal(strike as int), o.name(), '-');
    }

    /// Reading the text form of a type gives the type back, for every type
    /// whose expiry date lies from 1970 to 2069 and whose strike is not
    /// negative.
    pub proof fn lemma_decode_encode(self)
        requires
            self.round_trips(),
        ensures
            InstType::decode(self.encode()) == Ok::<InstType, DecodeError>(self),
    {
        lemma_type_names();
        match self {
            InstType::Spot => {
                lemma_split_single("Spot"@, '-');
            },
            InstType::Margin => {
                lemma_split_single("Margin"@, '-');
            },
            InstType::Swap => {
                lemma_split_single("Swap"@, '-');
            },
            InstType::Futures(d) => {
                Self::lemma_futures_pieces(d);
                d.lemma_yymmdd_round_trip();
            },
            InstType::Options(d, strike, o) => {
                Self::lemma_options_pieces(d, strike, o);
                d.lemma_yymmdd_round_trip();
                lemma_parse_to_decimal(strike as int);
                o.lemma_name();
            },
        }
    }
}

impl Inst {
    /// The dotted text form of an instrument splits into the names of its
    /// four parts.
    pub proof fn lemma_encode_parts(self)
        requires
            self.inst_type.wf(),
        ensures
            split(self.encode(), '.') == seq![
                self.exch.name(),
                self.base_ccy.name(),
                self.quote_ccy.name(),
                self.inst_type.encode(),
            ],
    {
        self.exch.lemma_name();
        self.base_ccy.lemma_name();
        self.quote_ccy.lemma_name();
        self.inst_type.lemma_encode_free_of_dot();
        lemma_split_four(
            self.exch.name(),
            self.base_ccy.name(),
            self.quote_ccy.name(),
            self.inst_type.encode(),
            '.',
        );
    }

    /// The names of the four parts of an instrument name the instrument.
    pub proof fn lemma_decode_parts(self)
        requires
            self.inst_type.round_trips(),
        ensures
            Inst::decode_parts(
                self.exch.name(),
                self.base_ccy.name(),
                self.quote_ccy.name(),
                self.inst_type.encode(),
            ) == Ok::<Inst, DecodeError>(self),
    {
        self.exch.lemma_name();
        self.base_ccy.lemma_name();
        self.quote_ccy.lemma_name();
        self.inst_type.lemma_decode_encode();
    }

    /// Reading the dotted text form of an instrument gives the instrument
    /// back, for every instrument whose type can be read back.
    pub proof fn lemma_decode_encode(self)
        requires
            self.inst_type.round_trips(),
        ensures
            Inst::decode(self.encode()) == Ok::<Inst, DecodeError>(self),
    {
        self.lemma_encode_parts();
        self.lemma_decode_parts();
    }

    /// A dotted text that was written for an instrument is written again
    /// from what is read from it.
    pub proof fn lemma_encode_decode(s: Seq<char>, inst: Inst)
        requires
            inst.inst_type.round_trips(),
            s == inst.encode(),
        ensures
            Inst::decode(s) matches Ok(i) && i.encode() == s,
    {
        inst.lemma_decode_encode();
    }
}

} // verus!
