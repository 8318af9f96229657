use lknpd::report::{last_row_index, SnowballRecordEvent};

#[test]
fn try_from_fail() {
    let actual: Result<SnowballRecordEvent, String> =
        SnowballRecordEvent::try_from("foo".to_string());

    assert_eq!("unknown foo", actual.err().unwrap());
}

#[test]
fn try_from_known_words() {
    let cases = [
        (SnowballRecordEvent::Buy, "Выдача займа"),
        (SnowballRecordEvent::Sell, "Возврат основного долга"),
        (SnowballRecordEvent::Dividend, "Получение дохода (проценты, пени)"),
        (SnowballRecordEvent::CashIn, "Пополнение л/с"),
        (SnowballRecordEvent::CashGain, "Начисление % на остаток"),
    ];
    for (expected, input) in cases {
        assert_eq!(Ok(expected), SnowballRecordEvent::try_from(input.to_string()));
    }
}

#[test]
fn event_to_string() {
    assert_eq!("Buy", SnowballRecordEvent::Buy.to_string());
    assert_eq!("Sell", SnowballRecordEvent::Sell.to_string());
    assert_eq!("Dividend", SnowballRecordEvent::Dividend.to_string());
    assert_eq!("Cash_In", SnowballRecordEvent::CashIn.to_string());
    assert_eq!("Cash_Gain", SnowballRecordEvent::CashGain.to_string());
}

#[test]
fn event_fields() {
    assert_eq!(SnowballRecordEvent::Buy.symbol(), "ZAIMI_POTOK");
    assert_eq!(SnowballRecordEvent::Dividend.symbol(), "ZAIMI_POTOK");
    assert_eq!(SnowballRecordEvent::CashIn.symbol(), "RUB");
    assert_eq!(SnowballRecordEvent::CashGain.symbol(), "RUB");
    assert_eq!(SnowballRecordEvent::Buy.unit_price(), 1);
    assert_eq!(SnowballRecordEvent::Dividend.unit_price(), 0);
    assert!(SnowballRecordEvent::Buy.counts_outcome());
    assert!(!SnowballRecordEvent::Sell.counts_outcome());
    assert_eq!(SnowballRecordEvent::Sell.exchange(), Some("CUSTOM_HOLDING"));
    assert_eq!(SnowballRecordEvent::CashIn.exchange(), None);
}

#[test]
fn rows_of_a_report() {
    assert_eq!(last_row_index(10, None), 9);
    assert_eq!(last_row_index(10, Some(false)), 9);
    assert_eq!(last_row_index(10, Some(true)), 8);
    assert_eq!(last_row_index(1, None), 0);
    assert_eq!(last_row_index(2, Some(true)), 0);
}
