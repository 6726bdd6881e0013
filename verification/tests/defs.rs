use abraca::common::defs::{
    Ccy, DataType, Date, DecodeError, Exch, Inst, InstType, OptType, OrdState,
};

fn date(year: i32, month: u32, day: u32) -> Date {
    Date::from_ymd_opt(year, month, day).unwrap()
}

#[test]
fn try_into_inst_type_works() {
    assert_eq!("Spot".try_into(), Ok(InstType::Spot));
    assert_eq!("Margin".try_into(), Ok(InstType::Margin));
    assert_eq!("Swap".try_into(), Ok(InstType::Swap));
    assert_eq!("Futures-230421".try_into(), Ok(InstType::Futures(date(2023, 4, 21))));
    assert_eq!(
        "Options-230421-10000-C".try_into(),
        Ok(InstType::Options(date(2023, 4, 21), 10000, OptType::C))
    );
}

#[test]
fn try_into_inst_works() {
    assert_eq!(
        ("Okx", "BTC", "USDT", "Spot").try_into(),
        Ok(Inst {
            exch: Exch::Okx,
            base_ccy: Ccy::BTC,
            quote_ccy: Ccy::USDT,
            inst_type: InstType::Spot,
        })
    );
    assert_eq!(
        ("Okx", "ETH", "USD", "Swap").try_into(),
        Ok(Inst {
            exch: Exch::Okx,
            base_ccy: Ccy::ETH,
            quote_ccy: Ccy::USD,
            inst_type: InstType::Swap,
        })
    );
    assert_eq!(
        ("Okx", "BTC", "USDT", "Futures-230421").try_into(),
        Ok(Inst {
            exch: Exch::Okx,
            base_ccy: Ccy::BTC,
            quote_ccy: Ccy::USDT,
            inst_type: InstType::Futures(date(2023, 4, 21)),
        })
    );
    assert_eq!(
        ("Okx", "BTC", "USDT", "Options-230421-10000-C").try_into(),
        Ok(Inst {
            exch: Exch::Okx,
            base_ccy: Ccy::BTC,
            quote_ccy: Ccy::USDT,
            inst_type: InstType::Options(date(2023, 4, 21), 10000, OptType::C),
        })
    );
}

#[test]
fn inst_type_to_string_writes_every_variant() {
    assert_eq!(InstType::Spot.to_string(), "Spot");
    assert_eq!(InstType::Margin.to_string(), "Margin");
    assert_eq!(InstType::Swap.to_string(), "Swap");
    assert_eq!(InstType::Futures(date(2023, 4, 21)).to_string(), "Futures-230421");
    assert_eq!(
        InstType::Options(date(2023, 4, 21), 10000, OptType::C).to_string(),
        "Options-230421-10000-C"
    );
    assert_eq!(
        InstType::Options(date(2069, 12, 31), 0, OptType::P).to_string(),
        "Options-691231-0-P"
    );
}

#[test]
fn inst_to_string_is_dotted() {
    let inst = Inst {
        exch: Exch::Okx,
        base_ccy: Ccy::BTC,
        quote_ccy: Ccy::USD,
        inst_type: InstType::Futures(date(2023, 4, 21)),
    };
    assert_eq!(inst.to_string(), "Okx.BTC.USD.Futures-230421");
    let inst = Inst {
        exch: Exch::BinanceFutures,
        base_ccy: Ccy::Unknown,
        quote_ccy: Ccy::USDT,
        inst_type: InstType::Margin,
    };
    assert_eq!(inst.to_string(), "BinanceFutures.Unknown.USDT.Margin");
}

#[test]
fn dotted_form_round_trips_for_all_five_types() {
    let types = vec![
        InstType::Spot,
        InstType::Margin,
        InstType::Swap,
        InstType::Futures(date(1970, 1, 1)),
        InstType::Futures(date(2024, 2, 29)),
        InstType::Options(date(2069, 12, 31), 0, OptType::P),
        InstType::Options(date(2023, 4, 21), i64::MAX, OptType::C),
    ];
    for inst_type in types {
        for exch in [Exch::Okx, Exch::BinanceFutures] {
            let inst = Inst { exch, base_ccy: Ccy::ETH, quote_ccy: Ccy::USDC, inst_type };
            let text = inst.to_string();
            assert_eq!(Inst::try_from(text.as_str()), Ok(inst));
            assert_eq!(Inst::try_from(text.as_str()).unwrap().to_string(), text);
        }
    }
}

#[test]
fn dotted_form_of_a_date_outside_the_century_window_reads_back_another_date() {
    let text = InstType::Futures(date(1923, 4, 21)).to_string();
    assert_eq!(text, "Futures-230421");
    assert_eq!(InstType::try_from(text.as_str()), Ok(InstType::Futures(date(2023, 4, 21))));
}

#[test]
fn dotted_form_of_a_negative_strike_is_not_read_back() {
    let text = InstType::Options(date(2023, 4, 21), -5, OptType::C).to_string();
    assert_eq!(text, "Options-230421--5-C");
    assert_eq!(InstType::try_from(text.as_str()), Err(DecodeError::Strike));
}

#[test]
fn inst_type_errors_name_the_failing_piece() {
    assert_eq!(InstType::try_from(""), Err(DecodeError::InstrumentType));
    assert_eq!(InstType::try_from("Forward-230421"), Err(DecodeError::InstrumentType));
    assert_eq!(InstType::try_from("Futures"), Err(DecodeError::MissingExpirationDate));
    assert_eq!(InstType::try_from("Futures-230431"), Err(DecodeError::ExpirationDate));
    assert_eq!(InstType::try_from("Futures-2304"), Err(DecodeError::ExpirationDate));
    assert_eq!(InstType::try_from("Futures-23042a"), Err(DecodeError::ExpirationDate));
    assert_eq!(InstType::try_from("Options"), Err(DecodeError::MissingExpirationDate));
    assert_eq!(InstType::try_from("Options-230421"), Err(DecodeError::MissingStrike));
    assert_eq!(InstType::try_from("Options-230421-10000"), Err(DecodeError::MissingOptionType));
    assert_eq!(InstType::try_from("Options-230229-10000-C"), Err(DecodeError::ExpirationDate));
    assert_eq!(InstType::try_from("Options-230421-1e4-C"), Err(DecodeError::Strike));
    assert_eq!(InstType::try_from("Options-230421-10000-X"), Err(DecodeError::OptionType));
}

#[test]
fn inst_type_reads_its_pieces_from_the_left() {
    assert_eq!(InstType::try_from("Spot-anything"), Ok(InstType::Spot));
    assert_eq!(InstType::try_from("Futures-230421-more"), Ok(InstType::Futures(date(2023, 4, 21))));
    assert_eq!(
        InstType::try_from("Options-230421-+7-P-more"),
        Ok(InstType::Options(date(2023, 4, 21), 7, OptType::P))
    );
}

#[test]
fn two_digit_years_pivot_at_seventy() {
    assert_eq!(InstType::try_from("Futures-690101"), Ok(InstType::Futures(date(2069, 1, 1))));
    assert_eq!(InstType::try_from("Futures-700101"), Ok(InstType::Futures(date(1970, 1, 1))));
    assert_eq!(InstType::try_from("Futures-000229"), Ok(InstType::Futures(date(2000, 2, 29))));
}

#[test]
fn inst_errors_name_the_failing_part() {
    assert_eq!(Inst::try_from("Okx.BTC.USDT"), Err(DecodeError::Instrument));
    assert_eq!(Inst::try_from("Okx.BTC.USDT.Spot.x"), Err(DecodeError::Instrument));
    assert_eq!(Inst::try_from("Kraken.BTC.USDT.Spot"), Err(DecodeError::Exchange));
    assert_eq!(Inst::try_from("Okx.btc.USDT.Spot"), Err(DecodeError::BaseCurrency));
    assert_eq!(Inst::try_from("Okx.BTC.EURO.Spot"), Err(DecodeError::QuoteCurrency));
    assert_eq!(Inst::try_from("Okx.BTC.USDT.Forward"), Err(DecodeError::InstrumentType));
    assert_eq!(Inst::try_from("Okx.BTC.USDT.Futures-999999"), Err(DecodeError::ExpirationDate));
    assert_eq!(DecodeError::Exchange.message(), "invalid exchange");
    assert_eq!(DecodeError::ExpirationDate.message(), "invalid expiration date");
}

#[test]
fn dates_are_dates_of_the_calendar() {
    assert!(Date::from_ymd_opt(2024, 2, 29).is_some());
    assert!(Date::from_ymd_opt(2023, 2, 29).is_none());
    assert!(Date::from_ymd_opt(1900, 2, 29).is_none());
    assert!(Date::from_ymd_opt(2000, 2, 29).is_some());
    assert!(Date::from_ymd_opt(-4, 2, 29).is_some());
    assert!(Date::from_ymd_opt(2023, 4, 31).is_none());
    assert!(Date::from_ymd_opt(2023, 13, 1).is_none());
    assert!(Date::from_ymd_opt(2023, 0, 1).is_none());
    assert!(Date::from_ymd_opt(2023, 1, 0).is_none());
    assert!(Date::from_ymd_opt(262142, 12, 31).is_some());
    assert!(Date::from_ymd_opt(262143, 1, 1).is_none());
    assert!(Date::from_ymd_opt(-262143, 1, 1).is_some());
    assert!(Date::from_ymd_opt(-262144, 12, 31).is_none());
    let d = date(2023, 4, 21);
    assert_eq!((d.year(), d.month(), d.day()), (2023, 4, 21));
}

#[test]
fn names_are_read_back() {
    for ccy in [Ccy::Unknown, Ccy::BTC, Ccy::ETH, Ccy::LTC, Ccy::BCH, Ccy::USD, Ccy::USDT, Ccy::USDC] {
        assert_eq!(Ccy::from_str(ccy.to_str()), Some(ccy));
    }
    assert_eq!(Ccy::BTC.to_str(), "BTC");
    assert_eq!(Ccy::from_str("DOGE"), Some(Ccy::DOGE));
    assert_eq!(Ccy::from_str("usd"), None);
    assert_eq!(Exch::from_str("Okx"), Some(Exch::Okx));
    assert_eq!(Exch::BinanceFutures.to_str(), "BinanceFutures");
    assert_eq!(OptType::from_str("P"), Some(OptType::P));
    assert_eq!(OptType::from_str("CP"), None);
    for kind in [
        DataType::Ticker,
        DataType::FundingRate,
        DataType::OpenInterest,
        DataType::Depth,
        DataType::Trade,
    ] {
        assert_eq!(DataType::from_str(kind.to_str()), Some(kind));
    }
    assert_eq!(DataType::from_str("Candle"), None);
}

#[test]
fn defaults_are_the_unset_values() {
    assert_eq!(Ccy::default(), Ccy::Unknown);
    assert_eq!(OrdState::default(), OrdState::Unknwon);
}

#[test]
fn six_digits_are_read_as_year_month_and_day() {
    for yy in [0, 1, 23, 24, 68, 69, 70, 71, 99] {
        let year = if yy < 70 { 2000 + yy } else { 1900 + yy };
        for mm in 0..100u32 {
            for dd in 0..100u32 {
                let text = format!("Futures-{:02}{:02}{:02}", yy, mm, dd);
                let expected = match Date::from_ymd_opt(year, mm, dd) {
                    Some(d) => Ok(InstType::Futures(d)),
                    None => Err(DecodeError::ExpirationDate),
                };
                assert_eq!(InstType::try_from(text.as_str()), expected);
            }
        }
    }
}

#[test]
fn every_day_of_the_century_window_round_trips() {
    let mut days = 0;
    for year in 1970..=2069 {
        for month in 1..=12u32 {
            for day in 1..=31u32 {
                if let Some(d) = Date::from_ymd_opt(year, month, day) {
                    let inst_type = InstType::Futures(d);
                    let text = inst_type.to_string();
                    assert_eq!(text, format!("Futures-{:02}{:02}{:02}", year % 100, month, day));
                    assert_eq!(InstType::try_from(text.as_str()), Ok(inst_type));
                    days += 1;
                }
            }
        }
    }
    assert_eq!(days, 36525);
}

#[test]
fn years_are_written_by_their_last_two_digits() {
    for (year, digits) in [
        (1969, "69"),
        (2070, "70"),
        (2100, "00"),
        (99, "99"),
        (100, "00"),
        (5, "05"),
        (0, "00"),
        (-1, "99"),
        (-5, "95"),
        (-100, "00"),
        (-262143, "57"),
        (262142, "42"),
    ] {
        let text = InstType::Futures(date(year, 12, 31)).to_string();
        assert_eq!(text, format!("Futures-{}1231", digits));
    }
}
